//! The log sink: a severity filter, a self-exclusion filter, and a
//! fixed-capacity FIFO of records with evict-oldest-on-overflow.

use crate::buffer::rb_capacity;
use crate::buffer::rb_enqueue;
use crate::buffer::rb_items;
use crate::buffer::rb_new;
use crate::buffer::rb_to_vec;
use crate::item::ItemModel;
use crate::item::LogItem;
use crate::level::Level;
use crate::settings::Settings;
use crate::text::contains_sub;
use crate::text::seq_contains;
use ringbuffer::AllocRingBuffer;
use vstd::math::min;
use vstd::prelude::*;

verus! {

/// Captures log records in memory, in a ring buffer of fixed size: when
/// the buffer is full, the oldest record is evicted to make room. A
/// snapshot of the records can be served over HTTP by the exposure layer.
pub struct LogServer {
    settings: Settings,
    buffer: AllocRingBuffer<LogItem>,
}

/// A record originating in the exposure layer's own machinery is excluded
/// from the buffer, to prevent feedback loops where serving a request
/// generates further records.
pub open spec fn self_excluded(module: Seq<char>) -> bool {
    seq_contains(module, "rocket"@) || seq_contains(module, "reqwest"@)
}

/// One step of the buffer: append the new record, evicting the single
/// oldest record first when the buffer is at capacity.
pub open spec fn push_evict(s: Seq<ItemModel>, c: nat, x: ItemModel) -> Seq<ItemModel> {
    if s.len() < c {
        s.push(x)
    } else {
        s.drop_first().push(x)
    }
}

/// The buffer after accepting each of `items` in order, starting from `s`.
pub open spec fn record_all(s: Seq<ItemModel>, c: nat, items: Seq<ItemModel>) -> Seq<ItemModel>
    decreases items.len(),
{
    if items.len() == 0 {
        s
    } else {
        record_all(push_evict(s, c, items[0]), c, items.drop_first())
    }
}

impl View for LogServer {
    type V = Seq<ItemModel>;

    /// The records currently buffered, oldest first.
    closed spec fn view(&self) -> Seq<ItemModel> {
        rb_items(self.buffer)
    }
}

impl LogServer {
    /// The fixed maximum number of buffered records.
    pub closed spec fn capacity(&self) -> nat {
        rb_capacity(self.buffer)
    }

    /// The configured minimum severity.
    pub closed spec fn min_level(&self) -> Level {
        self.settings.level
    }

    /// The configuration the sink was created with.
    pub closed spec fn spec_settings(&self) -> Settings {
        self.settings
    }

    /// A well-formed sink: valid settings, a buffer whose capacity is the
    /// configured record count, and no more buffered records than that.
    pub closed spec fn wf(&self) -> bool {
        &&& self.settings.wf()
        &&& self.capacity() == self.settings.num_records as nat
        &&& self@.len() <= self.capacity()
    }

    /// What well-formedness guarantees to callers: the buffer never holds
    /// more records than its positive capacity.
    pub proof fn lemma_wf_bounds(&self)
        requires
            self.wf(),
        ensures
            1 <= self.capacity(),
            self@.len() <= self.capacity(),
            self.capacity() == self.spec_settings().num_records as nat,
            self.min_level() == self.spec_settings().level,
            self.spec_settings().wf(),
    {
    }

    /// Creates a sink that buffers at most `settings.num_records` records,
    /// initially empty.
    pub fn with_settings(settings: Settings) -> (r: LogServer)
        requires
            settings.wf(),
        ensures
            r.wf(),
            r@ == Seq::<ItemModel>::empty(),
            r.spec_settings() == settings,
            r.capacity() == settings.num_records as nat,
            r.min_level() == settings.level,
    {
        let capacity: usize = settings.num_records as usize;
        let buffer = rb_new(capacity);
        LogServer { settings, buffer }
    }

    /// Read access to the sink's configuration.
    pub fn settings(&self) -> (r: &Settings)
        ensures
            *r == self.spec_settings(),
    {
        &self.settings
    }

    /// Whether a record at severity `level` is retained: exactly when it is
    /// at least as severe as the configured minimum.
    pub fn enabled(&self, level: Level) -> (r: bool)
        ensures
            r == level.passes(self.min_level()),
    {
        level.rank() >= self.settings.level.rank()
    }

    /// Records one log call. The call is a no-op when the severity does not
    /// pass the configured minimum, or when the originating module names the
    /// exposure layer's own machinery; otherwise the record is appended to
    /// the buffer, evicting the oldest record first if the buffer is full.
    /// This never fails: acceptance depends only on the two filters, never
    /// on buffer state.
    pub fn record(&mut self, level: Level, module: &str, message: &str)
        requires
            old(self).wf(),
        ensures
            final(self).wf(),
            final(self).spec_settings() == old(self).spec_settings(),
            final(self).capacity() == old(self).capacity(),
            final(self).min_level() == old(self).min_level(),
            level.passes(old(self).min_level()) && !self_excluded(module@) ==> final(self)@
                == push_evict(
                old(self)@,
                old(self).capacity(),
                (level.spec_label(), module@, message@),
            ),
            !(level.passes(old(self).min_level()) && !self_excluded(module@)) ==> final(self)@
                == old(self)@,
    {
        if self.enabled(level) {
            if contains_sub(module, "rocket") || contains_sub(module, "reqwest") {
                return ;
            }
            let item = LogItem {
                level: level.label().to_owned(),
                module: module.to_owned(),
                message: message.to_owned(),
            };
            rb_enqueue(&mut self.buffer, item);
        }
    }

    /// Copies the buffered records, oldest first.
    pub fn snapshot(&self) -> (r: Vec<LogItem>)
        ensures
            r@.map_values(|it: LogItem| it@) == self@,
            r@.len() == self@.len(),
    {
        let r = rb_to_vec(&self.buffer);
        proof {
            assert(r@.map_values(|it: LogItem| it@).len() == r@.len());
        }
        r
    }

    /// Nothing to flush: records are only ever held in memory.
    pub fn flush(&self) {
    }
}

/// FIFO retention law: recording a sequence of accepted records into a
/// buffer keeps exactly the most recent `c` of all records seen, in their
/// acceptance order; the final length is the total number of records seen,
/// capped at the capacity.
pub proof fn lemma_fifo_retention(s: Seq<ItemModel>, c: nat, items: Seq<ItemModel>)
    requires
        1 <= c,
        s.len() <= c,
    ensures
        record_all(s, c, items).len() == min(c as int, s.len() + items.len() as int),
        s.len() + items.len() <= c ==> record_all(s, c, items) == s + items,
        s.len() + items.len() > c ==> record_all(s, c, items) == (s + items).skip(
            s.len() + items.len() - c,
        ),
    decreases items.len(),
{
    if items.len() == 0 {
        assert(s + items =~= s);
    } else {
        let x = items[0];
        let rest = items.drop_first();
        let s2 = push_evict(s, c, x);
        lemma_fifo_retention(s2, c, rest);
        if s.len() < c {
            assert(s2 + rest =~= s + items);
        } else {
            assert(s2 + rest =~= (s + items).skip(1));
            if s2.len() + rest.len() > c {
                let k = s2.len() + rest.len() - c;
                assert(((s + items).skip(1)).skip(k) =~= (s + items).skip(k + 1));
            }
        }
    }
}

} // verus!
