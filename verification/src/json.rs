//! Framing of JSON objects out of literals that are already written.

use vstd::prelude::*;
use vstd::string::*;
use crate::text::{decimal, render_u64};

verus! {

/// Decimal numerals joined by commas.
pub open spec fn number_list(values: Seq<u64>) -> Seq<char>
    decreases values.len(),
{
    if values.len() == 0 {
        Seq::empty()
    } else if values.len() == 1 {
        decimal(values[0] as nat)
    } else {
        number_list(values.drop_last()) + ","@ + decimal(values.last() as nat)
    }
}

/// A JSON array of numbers, without white space.
pub open spec fn json_array(values: Seq<u64>) -> Seq<char> {
    "["@ + number_list(values) + "]"@
}

/// A JSON boolean.
pub open spec fn json_bool(b: bool) -> Seq<char> {
    if b {
        "true"@
    } else {
        "false"@
    }
}

/// One further member of a JSON object: its opening, which holds the
/// comma, the quoted name and the colon, then the value; or nothing
/// where the value is absent.
pub open spec fn member(opening: Seq<char>, value: Option<Seq<char>>) -> Seq<char> {
    match value {
        Some(v) => opening + v,
        None => Seq::empty(),
    }
}

/// Appends one further member to a JSON object under construction.
pub fn append_member(out: &mut String, opening: &str, value: Option<&str>)
    ensures
        final(out)@ == old(out)@ + member(
            opening@,
            match value {
                Some(v) => Some(v@),
                None => None,
            },
        ),
{
    match value {
        Some(v) => {
            out.append(opening);
            out.append(v);
            assert(out@ =~= old(out)@ + (opening@ + v@));
        },
        None => {
            assert(out@ =~= old(out)@ + Seq::<char>::empty());
        },
    }
}

/// Renders a JSON array of numbers.
pub fn render_json_array(values: &Vec<u64>) -> (r: String)
    ensures
        r@ == json_array(values@),
{
    let mut list = String::new();
    let mut i: usize = 0;
    while i < values.len()
        invariant
            i <= values.len(),
            list@ == number_list(values@.take(i as int)),
        decreases values.len() - i,
    {
        let ghost prefix = values@.take(i as int);
        let ghost next = values@.take(i + 1);
        proof {
            assert(next.drop_last() =~= prefix);
            assert(next.last() == values@[i as int]);
        }
        if i > 0 {
            list.append(",");
        }
        list.append(render_u64(values[i]).as_str());
        assert(list@ =~= number_list(next)) by {
            if i == 0 {
                assert(number_list(prefix) =~= Seq::<char>::empty());
            }
        }
        i += 1;
    }
    assert(values@.take(i as int) =~= values@);
    let mut out = String::from_str("[");
    out.append(list.as_str());
    out.append("]");
    out
}

} // verus!
