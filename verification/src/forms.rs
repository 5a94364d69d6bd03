//! Reading submitted form fields: comma-separated lists, optional text that
//! counts only when it holds something, and optional numbers.
use crate::text::{chars_of, parse_i64_chars, split, split_chars, string_of, texts,
    trim, trim_chars};
use vstd::prelude::*;

verus! {

/// The trimmed pieces of `parts` that are not empty, in order.
pub open spec fn kept_items(parts: Seq<Seq<char>>) -> Seq<Seq<char>>
    decreases parts.len(),
{
    if parts.len() == 0 {
        Seq::empty()
    } else {
        let rest = kept_items(parts.drop_last());
        let t = trim(parts.last());
        if t.len() > 0 {
            rest.push(t)
        } else {
            rest
        }
    }
}

/// The items of a comma-separated list: each piece trimmed, empty ones dropped.
pub open spec fn csv_items(s: Seq<char>) -> Seq<Seq<char>> {
    kept_items(split(s, ','))
}

/// The text of an optional field, empty where it is absent.
pub open spec fn field_text(o: Option<String>) -> Seq<char> {
    match o {
        Some(s) => s@,
        None => Seq::empty(),
    }
}

/// The items of the comma-separated list `s`.
pub fn csv_list(s: &str) -> (r: Vec<String>)
    ensures
        texts(r@) == csv_items(s@),
{
    let cs = chars_of(s);
    let parts = split_chars(cs.as_slice(), ',');
    let ghost ps = split(s@, ',');
    let mut r: Vec<String> = Vec::new();
    let mut i: usize = 0;
    while i < parts.len()
        invariant
            i <= parts@.len(),
            crate::text::views(parts@) == ps,
            ps == split(s@, ','),
            texts(r@) == kept_items(ps.take(i as int)),
        decreases parts.len() - i,
    {
        assert(ps.take(i + 1).drop_last() =~= ps.take(i as int));
        assert(ps[i as int] == parts@[i as int]@);
        let t = trim_chars(parts[i].as_slice());
        if t.len() > 0 {
            crate::text::push_text(&mut r, string_of(t.as_slice()));
        }
        i = i + 1;
    }
    assert(ps.take(parts@.len() as int) =~= ps);
    r
}

/// The items of an optional comma-separated list; none where it is absent.
pub fn csv_field(o: &Option<String>) -> (r: Vec<String>)
    ensures
        texts(r@) == csv_items(field_text(*o)),
{
    match o {
        Some(s) => csv_list(s.as_str()),
        None => {
            proof {
                reveal_strlit("");
            }
            assert(""@ =~= Seq::<char>::empty());
            csv_list("")
        },
    }
}

/// Whether an optional field holds something besides whitespace.
pub open spec fn has_content(o: Option<String>) -> bool {
    o matches Some(s) && trim(s@).len() > 0
}

/// The field as submitted, kept only where it holds something besides whitespace.
pub fn non_blank(o: &Option<String>) -> (r: Option<String>)
    ensures
        r is Some <==> has_content(*o),
        r matches Some(s) ==> s@ == field_text(*o),
{
    match o {
        Some(s) => {
            let t = trim_chars(chars_of(s.as_str()).as_slice());
            if t.len() > 0 {
                Some(s.clone())
            } else {
                None
            }
        },
        None => None,
    }
}

/// The field as submitted, kept only where it is not empty.
pub fn non_empty(o: &Option<String>) -> (r: Option<String>)
    ensures
        r is Some <==> (o matches Some(s) && s@.len() > 0),
        r matches Some(s) ==> s@ == field_text(*o),
{
    match o {
        Some(s) => {
            let c = chars_of(s.as_str());
            if c.len() > 0 {
                Some(s.clone())
            } else {
                None
            }
        },
        None => None,
    }
}

/// The number an optional field holds, read as an `i64`; `None` where it is
/// absent, empty or not a number.
pub open spec fn field_number(o: Option<String>) -> Option<i64> {
    match o {
        Some(s) => crate::text::parse_i64(s@),
        None => None,
    }
}

/// Reads an optional numeric field.
pub fn parse_i64(o: &Option<String>) -> (r: Option<i64>)
    ensures
        r == field_number(*o),
{
    match o {
        Some(s) => {
            let c = chars_of(s.as_str());
            if c.len() == 0 {
                None
            } else {
                parse_i64_chars(c.as_slice())
            }
        },
        None => None,
    }
}

} // verus!
