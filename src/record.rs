use vstd::prelude::*;
use vstd::string::axiom_spec_iter;

verus! {

/// The two-character token that marks an absent value in a source file.
pub open spec fn null_marker() -> Seq<char> {
    seq!['\\', 'N']
}

/// The characters of a string, in order.
pub fn chars_of(s: &String) -> (r: Vec<char>)
    ensures
        r@ == s@,
{
    broadcast use axiom_spec_iter;
    let mut v: Vec<char> = Vec::new();
    for c in it: s.as_str().chars()
        invariant
            it.seq() == s@,
            v@ == it.seq().take(it.index() as int),
    {
        v.push(c);
    }
    v
}

/// Whether a field is exactly the null marker.
pub fn is_null_marker(field: &String) -> (r: bool)
    ensures
        r == (field@ == null_marker()),
{
    let v = chars_of(field);
    let r = v.len() == 2 && v[0] == '\\' && v[1] == 'N';
    proof {
        if r {
            assert(field@ =~= null_marker());
        }
    }
    r
}


/// The fields of `s` between occurrences of `sep`, left to right; there is
/// always one more field than separators.
pub open spec fn split_on(s: Seq<char>, sep: char) -> Seq<Seq<char>>
    decreases s.len(),
{
    if s.len() == 0 {
        seq![Seq::<char>::empty()]
    } else {
        let prev = split_on(s.drop_last(), sep);
        if s.last() == sep {
            prev.push(Seq::<char>::empty())
        } else {
            prev.update(prev.len() - 1, prev.last().push(s.last()))
        }
    }
}

pub proof fn lemma_split_on_nonempty(s: Seq<char>, sep: char)
    ensures
        split_on(s, sep).len() >= 1,
    decreases s.len(),
{
    if s.len() > 0 {
        lemma_split_on_nonempty(s.drop_last(), sep);
    }
}

/// The views of a list of strings.
pub open spec fn views(v: Seq<String>) -> Seq<Seq<char>> {
    v.map_values(|f: String| f@)
}

/// Relies on String::push: the character is appended at the end.
#[verifier::external_body]
pub(crate) fn push_char(s: &mut String, c: char)
    ensures
        final(s)@ == old(s)@.push(c),
{
    s.push(c);
}

/// Splits `s` at every occurrence of `sep`.
pub fn split_fields(s: &String, sep: char) -> (r: Vec<String>)
    ensures
        views(r@) == split_on(s@, sep),
{
    let cs = chars_of(s);
    let mut done: Vec<String> = Vec::new();
    let mut cur = String::new();
    let mut i: usize = 0;
    while i < cs.len()
        invariant
            i <= cs.len(),
            cs@ == s@,
            views(done@).push(cur@) == split_on(s@.take(i as int), sep),
        decreases cs.len() - i,
    {
        let c = cs[i];
        proof {
            let t = s@.take(i as int + 1);
            assert(t.drop_last() =~= s@.take(i as int));
            assert(t.last() == c);
            lemma_split_on_nonempty(s@.take(i as int), sep);
        }
        if c == sep {
            let finished = cur;
            done.push(finished);
            cur = String::new();
            proof {
                assert(views(done@).push(cur@) =~= split_on(s@.take(i as int), sep).push(
                    Seq::<char>::empty(),
                ));
            }
        } else {
            let ghost before = views(done@).push(cur@);
            push_char(&mut cur, c);
            proof {
                assert(views(done@).push(cur@) =~= before.update(
                    before.len() - 1,
                    before.last().push(c),
                ));
            }
        }
        i = i + 1;
    }
    proof {
        assert(s@.take(cs.len() as int) =~= s@);
    }
    done.push(cur);
    done
}

/// The fields of one tab-separated line.
pub fn decode(line: &String) -> (r: Vec<String>)
    ensures
        views(r@) == split_on(line@, '\t'),
{
    split_fields(line, '\t')
}

/// The items of a comma-separated list; an empty text is an empty list.
pub open spec fn list_items(s: Seq<char>) -> Seq<Seq<char>> {
    if s.len() == 0 {
        Seq::empty()
    } else {
        split_on(s, ',')
    }
}

/// Splits a stored comma-separated list into its items.
pub fn split_list(s: &String) -> (r: Vec<String>)
    ensures
        views(r@) == list_items(s@),
{
    let cs = chars_of(s);
    if cs.len() == 0 {
        let r: Vec<String> = Vec::new();
        assert(views(r@) =~= Seq::<Seq<char>>::empty());
        r
    } else {
        split_fields(s, ',')
    }
}

/// Whether every character is an ASCII decimal digit, and there is one at least.
pub open spec fn all_digits(d: Seq<char>) -> bool {
    d.len() > 0 && forall|i: int| 0 <= i < d.len() ==> '0' <= #[trigger] d[i] <= '9'
}

/// The value of a string of decimal digits.
pub open spec fn digits_value(d: Seq<char>) -> int
    decreases d.len(),
{
    if d.len() == 0 {
        0
    } else {
        digits_value(d.drop_last()) * 10 + (d.last() as int - '0' as int)
    }
}

/// The integer written by an optional sign followed by decimal digits.
pub open spec fn decimal_value(s: Seq<char>) -> Option<int> {
    if s.len() > 0 && s[0] == '-' && all_digits(s.drop_first()) {
        Some(-digits_value(s.drop_first()))
    } else if s.len() > 0 && s[0] == '+' && all_digits(s.drop_first()) {
        Some(digits_value(s.drop_first()))
    } else if all_digits(s) {
        Some(digits_value(s))
    } else {
        None
    }
}

/// What parsing `s` as an `i32` gives: its value when it is written in
/// decimal and fits.
pub open spec fn parsed_i32(s: Seq<char>) -> Option<i32> {
    match decimal_value(s) {
        Some(v) => if i32::MIN <= v <= i32::MAX {
            Some(v as i32)
        } else {
            None
        },
        None => None,
    }
}

/// Relies on `str::parse::<i32>`: an optional `+` or `-` followed by decimal
/// digits only, whose value fits in an `i32`, is accepted; anything else is an
/// error.
#[verifier::external_body]
fn parse_i32(s: &String) -> (r: Option<i32>)
    ensures
        r == parsed_i32(s@),
{
    s.parse::<i32>().ok()
}

/// A numeric field read on a best-effort basis: zero when it does not parse.
pub fn int_or_zero(field: &String) -> (r: i32)
    ensures
        r == match parsed_i32(field@) {
            Some(v) => v,
            None => 0i32,
        },
{
    match parse_i32(field) {
        Some(v) => v,
        None => 0,
    }
}

/// An optional integer field: absent for the null marker or when it does not
/// parse.
pub open spec fn optional_int_of(field: Seq<char>) -> Option<i32> {
    if field == null_marker() {
        None
    } else {
        parsed_i32(field)
    }
}

/// Reads an optional integer field.
pub fn optional_int(field: &String) -> (r: Option<i32>)
    ensures
        r == optional_int_of(field@),
{
    if is_null_marker(field) {
        None
    } else {
        parse_i32(field)
    }
}

} // verus!
