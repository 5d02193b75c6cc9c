//! Rendering a JSON value into its UTF-8 wire-format text.
//!
//! The text produced for every model is pinned down exactly by [`text_of`]:
//! objects and arrays keep their entry order, strings are quoted with quote,
//! backslash and control characters escaped, and integers are written in
//! decimal.

use vstd::prelude::*;
use vstd::string::StringExecFns;
use crate::json_value::JsonValue;
use crate::json_value::JsonModel;
use crate::json_value::models_of;
use crate::json_value::entry_models_of;
use crate::json_value::model_of;
use crate::json_value::lemma_models_of;
use crate::json_value::lemma_entry_models_of;

verus! {

broadcast use vstd::string::axiom_spec_iter;

/// The lower-case hexadecimal digit for a value below 16.
pub open spec fn hex_char(n: int) -> char {
    if n == 0 {
        '0'
    } else if n == 1 {
        '1'
    } else if n == 2 {
        '2'
    } else if n == 3 {
        '3'
    } else if n == 4 {
        '4'
    } else if n == 5 {
        '5'
    } else if n == 6 {
        '6'
    } else if n == 7 {
        '7'
    } else if n == 8 {
        '8'
    } else if n == 9 {
        '9'
    } else if n == 10 {
        'a'
    } else if n == 11 {
        'b'
    } else if n == 12 {
        'c'
    } else if n == 13 {
        'd'
    } else if n == 14 {
        'e'
    } else {
        'f'
    }
}

/// The decimal text of a non-negative integer.
pub open spec fn dec_str(n: nat) -> Seq<char>
    decreases n,
{
    if n < 10 {
        seq![hex_char(n as int)]
    } else {
        dec_str(n / 10) + seq![hex_char((n % 10) as int)]
    }
}

/// The escape of one character inside a JSON string literal: quote and
/// backslash take a backslash escape, control characters the `\u00XX` form,
/// every other character stands as itself.
pub open spec fn esc_char(c: char) -> Seq<char> {
    if c == '"' {
        seq!['\\', '"']
    } else if c == '\\' {
        seq!['\\', '\\']
    } else if (c as u32) < 32 {
        seq!['\\', 'u', '0', '0', hex_char((c as u32) as int / 16), hex_char((c as u32) as int % 16)]
    } else {
        seq![c]
    }
}

/// The body of a JSON string literal: each character escaped, in order.
pub open spec fn esc_str(s: Seq<char>) -> Seq<char>
    decreases s.len(),
{
    if s.len() == 0 {
        Seq::empty()
    } else {
        esc_str(s.drop_last()) + esc_char(s.last())
    }
}

/// A quoted JSON string literal.
pub open spec fn quoted(s: Seq<char>) -> Seq<char> {
    seq!['"'] + esc_str(s) + seq!['"']
}

/// The text of a JSON value.
pub open spec fn text_of(m: JsonModel) -> Seq<char>
    decreases m,
{
    match m {
        JsonModel::Bool(b) => if b {
            "true"@
        } else {
            "false"@
        },
        JsonModel::UInt(n) => dec_str(n as nat),
        JsonModel::Str(s) => quoted(s),
        JsonModel::Arr(items) => seq!['['] + items_text(items) + seq![']'],
        JsonModel::Obj(entries) => seq!['{'] + entries_text(entries) + seq!['}'],
    }
}

/// The comma-separated texts of the items of an array.
pub open spec fn items_text(ms: Seq<JsonModel>) -> Seq<char>
    decreases ms,
{
    if ms.len() == 0 {
        Seq::empty()
    } else if ms.len() == 1 {
        text_of(ms[0])
    } else {
        items_text(ms.drop_last()) + seq![','] + text_of(ms.last())
    }
}

/// The text of one object entry: quoted key, colon, value.
pub open spec fn entry_text(e: (Seq<char>, JsonModel)) -> Seq<char>
    decreases e,
{
    quoted(e.0) + seq![':'] + text_of(e.1)
}

/// The comma-separated texts of the entries of an object.
pub open spec fn entries_text(es: Seq<(Seq<char>, JsonModel)>) -> Seq<char>
    decreases es,
{
    if es.len() == 0 {
        Seq::empty()
    } else if es.len() == 1 {
        entry_text(es[0])
    } else {
        entries_text(es.drop_last()) + seq![','] + entry_text(es.last())
    }
}

/// Relies on `String::push` of std: appends exactly the given character to
/// the end of the string.
#[verifier::external_body]
fn push_char(out: &mut String, c: char)
    ensures
        final(out)@ == old(out)@ + seq![c],
{
    out.push(c);
}

/// Append the one hexadecimal digit for a value below 16.
fn push_hex_char(out: &mut String, n: u64)
    requires
        n < 16,
    ensures
        final(out)@ == old(out)@ + seq![hex_char(n as int)],
{
    let c: char = if n == 0 {
        '0'
    } else if n == 1 {
        '1'
    } else if n == 2 {
        '2'
    } else if n == 3 {
        '3'
    } else if n == 4 {
        '4'
    } else if n == 5 {
        '5'
    } else if n == 6 {
        '6'
    } else if n == 7 {
        '7'
    } else if n == 8 {
        '8'
    } else if n == 9 {
        '9'
    } else if n == 10 {
        'a'
    } else if n == 11 {
        'b'
    } else if n == 12 {
        'c'
    } else if n == 13 {
        'd'
    } else if n == 14 {
        'e'
    } else {
        'f'
    };
    push_char(out, c);
}

/// Append the decimal text of `n`.
fn write_u64(n: u64, out: &mut String)
    ensures
        final(out)@ == old(out)@ + dec_str(n as nat),
    decreases n,
{
    if n >= 10 {
        write_u64(n / 10, out);
    }
    push_hex_char(out, n % 10);
    proof {
        if n >= 10 {
            assert(old(out)@ + dec_str((n / 10) as nat) + seq![hex_char((n % 10) as int)] =~= old(
                out,
            )@ + dec_str(n as nat));
        }
    }
}

/// Escaping one more character extends the escaped prefix by its escape.
proof fn lemma_esc_str_snoc(t: Seq<char>, i: int)
    requires
        0 <= i < t.len(),
    ensures
        esc_str(t.take(i + 1)) == esc_str(t.take(i)) + esc_char(t[i]),
{
    assert(t.take(i + 1).drop_last() =~= t.take(i));
    assert(t.take(i + 1).last() == t[i]);
}

/// Append the escaped body of a string literal.
fn write_escaped(s: &str, out: &mut String)
    ensures
        final(out)@ == old(out)@ + esc_str(s@),
{
    proof {
        assert(s@.take(0) =~= Seq::<char>::empty());
    }
    for c in it: s.chars()
        invariant
            it.seq() == s@,
            out@ == old(out)@ + esc_str(s@.take(it.index())),
    {
        let ghost pre = out@;
        let ghost i = it.index();
        let code: u32 = c as u32;
        if c == '"' {
            push_char(out, '\\');
            push_char(out, '"');
        } else if c == '\\' {
            push_char(out, '\\');
            push_char(out, '\\');
        } else if code < 32 {
            push_char(out, '\\');
            push_char(out, 'u');
            push_char(out, '0');
            push_char(out, '0');
            push_hex_char(out, (code / 16) as u64);
            push_hex_char(out, (code % 16) as u64);
        } else {
            push_char(out, c);
        }
        proof {
            assert(out@ =~= pre + esc_char(c));
            lemma_esc_str_snoc(s@, i);
            assert(out@ =~= old(out)@ + esc_str(s@.take(i + 1)));
        }
    }
    proof {
        assert(s@.take(s@.len() as int) =~= s@);
    }
}

/// Append a quoted, escaped JSON string literal.
fn write_str_literal(s: &str, out: &mut String)
    ensures
        final(out)@ == old(out)@ + quoted(s@),
{
    push_char(out, '"');
    write_escaped(s, out);
    push_char(out, '"');
    proof {
        assert(old(out)@ + seq!['"'] + esc_str(s@) + seq!['"'] =~= old(out)@ + quoted(s@));
    }
}

/// Writing one more array item extends the written items by a separator and
/// the item's text.
proof fn lemma_items_text_snoc(ms: Seq<JsonModel>, i: int)
    requires
        0 <= i < ms.len(),
    ensures
        items_text(ms.take(i + 1)) == if i == 0 {
            text_of(ms[0])
        } else {
            items_text(ms.take(i)) + seq![','] + text_of(ms[i])
        },
{
    assert(ms.take(i + 1).drop_last() =~= ms.take(i));
    assert(ms.take(i + 1).last() == ms[i]);
    if i == 0 {
        assert(ms.take(1)[0] == ms[0]);
    }
}

/// Writing one more object entry extends the written entries by a separator
/// and the entry's text.
proof fn lemma_entries_text_snoc(es: Seq<(Seq<char>, JsonModel)>, i: int)
    requires
        0 <= i < es.len(),
    ensures
        entries_text(es.take(i + 1)) == if i == 0 {
            entry_text(es[0])
        } else {
            entries_text(es.take(i)) + seq![','] + entry_text(es[i])
        },
{
    assert(es.take(i + 1).drop_last() =~= es.take(i));
    assert(es.take(i + 1).last() == es[i]);
    if i == 0 {
        assert(es.take(1)[0] == es[0]);
    }
}

/// Append the text of a JSON value.
#[verifier::loop_isolation(false)]
fn write_value(v: &JsonValue, out: &mut String)
    ensures
        final(out)@ == old(out)@ + text_of(v@),
    decreases *v,
{
    match v {
        JsonValue::Bool(b) => {
            if *b {
                out.append("true");
            } else {
                out.append("false");
            }
        },
        JsonValue::UInt(n) => {
            write_u64(*n, out);
        },
        JsonValue::Str(s) => {
            write_str_literal(s.as_str(), out);
        },
        JsonValue::Arr(items) => {
            push_char(out, '[');
            proof {
                lemma_models_of(items@);
            }
            let ghost ms = models_of(items@);
            let mut i: usize = 0;
            proof {
                assert(ms.take(0) =~= Seq::<JsonModel>::empty());
            }
            while i < items.len()
                invariant
                    i <= items@.len(),
                    ms == models_of(items@),
                    ms.len() == items@.len(),
                    forall|j: int| 0 <= j < items@.len() ==> ms[j] == model_of(items@[j]),
                    out@ == old(out)@ + seq!['['] + items_text(ms.take(i as int)),
                decreases items@.len() - i,
            {
                if i > 0 {
                    push_char(out, ',');
                }
                proof {
                    assert(*items == v->Arr_0);
                    assert(decreases_to!(*v => v->Arr_0));
                    assert(decreases_to!(*items => items@));
                    assert(decreases_to!(items@ => items@[i as int]));
                    assert(decreases_to!(*v => items@[i as int]));
                }
                write_value(&items[i], out);
                proof {
                    lemma_items_text_snoc(ms, i as int);
                    if i == 0 {
                        assert(out@ =~= old(out)@ + seq!['['] + items_text(ms.take(i + 1)));
                    } else {
                        assert(out@ =~= old(out)@ + seq!['['] + items_text(ms.take(i + 1)));
                    }
                }
                i += 1;
            }
            push_char(out, ']');
            proof {
                assert(ms.take(items@.len() as int) =~= ms);
                assert(out@ =~= old(out)@ + text_of(v@));
            }
        },
        JsonValue::Obj(entries) => {
            push_char(out, '{');
            proof {
                lemma_entry_models_of(entries@);
            }
            let ghost ms = entry_models_of(entries@);
            let mut i: usize = 0;
            proof {
                assert(ms.take(0) =~= Seq::<(Seq<char>, JsonModel)>::empty());
            }
            while i < entries.len()
                invariant
                    i <= entries@.len(),
                    ms == entry_models_of(entries@),
                    ms.len() == entries@.len(),
                    forall|j: int| 0 <= j < entries@.len() ==> ms[j] == ((entries@[j].0@, model_of(
                        entries@[j].1,
                    ))),
                    out@ == old(out)@ + seq!['{'] + entries_text(ms.take(i as int)),
                decreases entries@.len() - i,
            {
                if i > 0 {
                    push_char(out, ',');
                }
                let e = &entries[i];
                write_str_literal(e.0.as_str(), out);
                push_char(out, ':');
                proof {
                    assert(*entries == v->Obj_0);
                    assert(decreases_to!(*v => v->Obj_0));
                    assert(decreases_to!(*entries => entries@));
                    assert(decreases_to!(entries@ => entries@[i as int]));
                    assert(decreases_to!(entries@[i as int] => entries@[i as int].1));
                    assert(decreases_to!(*v => entries@[i as int].1));
                }
                write_value(&e.1, out);
                proof {
                    lemma_entries_text_snoc(ms, i as int);
                    assert(out@ =~= old(out)@ + seq!['{'] + entries_text(ms.take(i + 1)));
                }
                i += 1;
            }
            push_char(out, '}');
            proof {
                assert(ms.take(entries@.len() as int) =~= ms);
                assert(out@ =~= old(out)@ + text_of(v@));
            }
        },
    }
}

/// Render a JSON value to its wire-format text.
pub fn render_json(v: &JsonValue) -> (r: String)
    ensures
        r@ == text_of(v@),
{
    let mut out = String::new();
    write_value(v, &mut out);
    proof {
        assert(out@ =~= text_of(v@));
    }
    out
}

} // verus!
