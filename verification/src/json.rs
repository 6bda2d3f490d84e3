//! Rendering a snapshot of the buffer as a JSON array of records, each an
//! object with `level`, `module` and `message` string members.

use crate::item::ItemModel;
use crate::item::LogItem;
use crate::text::push_char;
use vstd::prelude::*;

verus! {

/// The lower-case hexadecimal digit for a value below sixteen.
pub open spec fn hex_digit(n: int) -> char {
    if n == 0 {
        '0'
    } else if n == 1 {
        '1'
    } else if n == 2 {
        '2'
    } else if n == 3 {
        '3'
    } else if n == 4 {
        '4'
    } else if n == 5 {
        '5'
    } else if n == 6 {
        '6'
    } else if n == 7 {
        '7'
    } else if n == 8 {
        '8'
    } else if n == 9 {
        '9'
    } else if n == 10 {
        'a'
    } else if n == 11 {
        'b'
    } else if n == 12 {
        'c'
    } else if n == 13 {
        'd'
    } else if n == 14 {
        'e'
    } else {
        'f'
    }
}

/// How one character appears inside a JSON string: quote and backslash are
/// escaped, the common control characters get their short escapes, any
/// other control character a `\u00..` escape, and everything else stands
/// as itself.
pub open spec fn escape_char(c: char) -> Seq<char> {
    if c == '"' {
        seq!['\\', '"']
    } else if c == '\\' {
        seq!['\\', '\\']
    } else if c == '\n' {
        seq!['\\', 'n']
    } else if c == '\r' {
        seq!['\\', 'r']
    } else if c == '\t' {
        seq!['\\', 't']
    } else if (c as u32) < 0x20 {
        seq!['\\', 'u', '0', '0', hex_digit(c as u32 as int / 16), hex_digit(c as u32 as int % 16)]
    } else {
        seq![c]
    }
}

/// A character sequence as it appears inside a JSON string.
pub open spec fn escaped(s: Seq<char>) -> Seq<char>
    decreases s.len(),
{
    if s.len() == 0 {
        Seq::empty()
    } else {
        escape_char(s[0]) + escaped(s.drop_first())
    }
}

/// A record rendered as a JSON object.
pub open spec fn json_item(m: ItemModel) -> Seq<char> {
    "{\"level\":\""@ + escaped(m.0) + "\",\"module\":\""@ + escaped(m.1) + "\",\"message\":\""@
        + escaped(m.2) + "\"}"@
}

/// The comma-separated JSON objects of a sequence of records.
pub open spec fn json_items(items: Seq<ItemModel>) -> Seq<char>
    decreases items.len(),
{
    if items.len() == 0 {
        Seq::empty()
    } else if items.len() == 1 {
        json_item(items[0])
    } else {
        json_item(items[0]) + ","@ + json_items(items.drop_first())
    }
}

/// A sequence of records rendered as a JSON array, oldest first; an empty
/// sequence renders as the empty array.
pub open spec fn json_array(items: Seq<ItemModel>) -> Seq<char> {
    "["@ + json_items(items) + "]"@
}

proof fn lemma_escaped_push(s: Seq<char>, c: char)
    ensures
        escaped(s.push(c)) == escaped(s) + escape_char(c),
    decreases s.len(),
{
    if s.len() == 0 {
        assert(s.push(c)[0] == c);
        assert(s.push(c).drop_first() =~= Seq::<char>::empty());
        assert(escaped(Seq::<char>::empty()) == Seq::<char>::empty());
        assert(escaped(s.push(c)) == escape_char(c) + escaped(Seq::<char>::empty()));
        assert(escaped(s.push(c)) =~= escaped(s) + escape_char(c));
    } else {
        assert(s.push(c)[0] == s[0]);
        assert(s.push(c).drop_first() =~= s.drop_first().push(c));
        lemma_escaped_push(s.drop_first(), c);
        assert(escaped(s.push(c)) == escape_char(s[0]) + escaped(s.drop_first().push(c)));
        assert(escaped(s.push(c)) =~= escaped(s) + escape_char(c));
    }
}

proof fn lemma_json_items_push(items: Seq<ItemModel>, m: ItemModel)
    ensures
        items.len() == 0 ==> json_items(items.push(m)) == json_item(m),
        items.len() > 0 ==> json_items(items.push(m)) == json_items(items) + ","@ + json_item(m),
    decreases items.len(),
{
    if items.len() == 0 {
    } else {
        assert(items.push(m).drop_first() =~= items.drop_first().push(m));
        lemma_json_items_push(items.drop_first(), m);
        if items.len() == 1 {
            assert(json_items(items.push(m)) =~= json_items(items) + ","@ + json_item(m));
        } else {
            assert(json_items(items.push(m)) =~= json_items(items) + ","@ + json_item(m));
        }
    }
}

/// Appends `s` to `out` with JSON string escaping applied.
fn append_escaped(out: &mut String, s: &str)
    ensures
        final(out)@ == old(out)@ + escaped(s@),
{
    let n = s.unicode_len();
    let mut i: usize = 0;
    proof {
        assert(s@.subrange(0, 0) =~= Seq::<char>::empty());
        assert(out@ =~= out@ + escaped(s@.subrange(0, 0)));
    }
    while i < n
        invariant
            n == s@.len(),
            i <= n,
            out@ == old(out)@ + escaped(s@.subrange(0, i as int)),
        decreases n - i,
    {
        let c = s.get_char(i);
        if c == '"' {
            out.append("\\\"");
            proof {
                reveal_strlit("\\\"");
                assert("\\\""@ =~= escape_char(c));
            }
        } else if c == '\\' {
            out.append("\\\\");
            proof {
                reveal_strlit("\\\\");
                assert("\\\\"@ =~= escape_char(c));
            }
        } else if c == '\n' {
            out.append("\\n");
            proof {
                reveal_strlit("\\n");
                assert("\\n"@ =~= escape_char(c));
            }
        } else if c == '\r' {
            out.append("\\r");
            proof {
                reveal_strlit("\\r");
                assert("\\r"@ =~= escape_char(c));
            }
        } else if c == '\t' {
            out.append("\\t");
            proof {
                reveal_strlit("\\t");
                assert("\\t"@ =~= escape_char(c));
            }
        } else if (c as u32) < 0x20 {
            let code = c as u32;
            out.append("\\u00");
            push_char(out, hex_char(code / 16));
            push_char(out, hex_char(code % 16));
            proof {
                reveal_strlit("\\u00");
                assert("\\u00"@ + seq![hex_digit(code as int / 16)] + seq![
                    hex_digit(code as int % 16),
                ] =~= escape_char(c));
            }
        } else {
            push_char(out, c);
            proof {
                assert(seq![c] =~= escape_char(c));
            }
        }
        proof {
            assert(s@.subrange(0, i + 1) =~= s@.subrange(0, i as int).push(s@[i as int]));
            lemma_escaped_push(s@.subrange(0, i as int), s@[i as int]);
            assert(out@ =~= old(out)@ + escaped(s@.subrange(0, i + 1)));
        }
        i += 1;
    }
    proof {
        assert(s@.subrange(0, n as int) =~= s@);
    }
}

/// The lower-case hexadecimal digit for `n`, which is below sixteen.
fn hex_char(n: u32) -> (r: char)
    requires
        n < 16,
    ensures
        r == hex_digit(n as int),
{
    if n == 0 {
        '0'
    } else if n == 1 {
        '1'
    } else if n == 2 {
        '2'
    } else if n == 3 {
        '3'
    } else if n == 4 {
        '4'
    } else if n == 5 {
        '5'
    } else if n == 6 {
        '6'
    } else if n == 7 {
        '7'
    } else if n == 8 {
        '8'
    } else if n == 9 {
        '9'
    } else if n == 10 {
        'a'
    } else if n == 11 {
        'b'
    } else if n == 12 {
        'c'
    } else if n == 13 {
        'd'
    } else if n == 14 {
        'e'
    } else {
        'f'
    }
}

/// Appends one record to `out` as a JSON object.
fn append_item(out: &mut String, it: &LogItem)
    ensures
        final(out)@ == old(out)@ + json_item(it@),
{
    out.append("{\"level\":\"");
    append_escaped(out, it.level.as_str());
    out.append("\",\"module\":\"");
    append_escaped(out, it.module.as_str());
    out.append("\",\"message\":\"");
    append_escaped(out, it.message.as_str());
    out.append("\"}");
    proof {
        assert(out@ =~= old(out)@ + json_item(it@));
    }
}

/// Renders a snapshot of the buffer as a JSON array, oldest first; an
/// empty snapshot renders as `[]`.
pub fn render_logs(items: &Vec<LogItem>) -> (r: String)
    ensures
        r@ == json_array(items@.map_values(|it: LogItem| it@)),
{
    let ghost models = items@.map_values(|it: LogItem| it@);
    let mut out = String::from_str("[");
    let mut i: usize = 0;
    proof {
        assert(models.subrange(0, 0) =~= Seq::<ItemModel>::empty());
    }
    while i < items.len()
        invariant
            models == items@.map_values(|it: LogItem| it@),
            i <= items@.len(),
            out@ == "["@ + json_items(models.subrange(0, i as int)),
        decreases items@.len() - i,
    {
        if i > 0 {
            out.append(",");
        }
        append_item(&mut out, &items[i]);
        proof {
            assert(models.subrange(0, i + 1) =~= models.subrange(0, i as int).push(
                models[i as int],
            ));
            assert(models[i as int] == items@[i as int]@);
            lemma_json_items_push(models.subrange(0, i as int), models[i as int]);
            assert(out@ =~= "["@ + json_items(models.subrange(0, i + 1)));
        }
        i += 1;
    }
    out.append("]");
    proof {
        assert(models.subrange(0, models.len() as int) =~= models);
        assert(out@ =~= json_array(models));
    }
    out
}

} // verus!
