use vstd::prelude::*;

verus! {

/// The value that a list of name-value pairs gives to `key`: that of the
/// last pair with this name, as in a map filled pair by pair.
pub open spec fn value_of(pairs: Seq<(String, String)>, key: Seq<char>) -> Option<Seq<char>>
    decreases pairs.len(),
{
    if pairs.len() == 0 {
        None
    } else if pairs.last().0@ == key {
        Some(pairs.last().1@)
    } else {
        value_of(pairs.drop_last(), key)
    }
}

/// Looks `key` up in `pairs`; the last pair with this name gives the value.
pub fn lookup<'a>(pairs: &'a Vec<(String, String)>, key: &str) -> (found: Option<&'a String>)
    ensures
        match found {
            Some(value) => value_of(pairs@, key@) == Some(value@),
            None => value_of(pairs@, key@) is None,
        },
{
    let wanted = String::from_str(key);
    let mut i: usize = pairs.len();
    assert(pairs@.take(i as int) == pairs@);
    while i > 0
        invariant
            i <= pairs@.len(),
            wanted@ == key@,
            value_of(pairs@, key@) == value_of(pairs@.take(i as int), key@),
        decreases i,
    {
        let ghost upto = pairs@.take(i as int);
        assert(upto.last() == pairs@[i - 1]);
        assert(upto.drop_last() == pairs@.take(i - 1));
        if pairs[i - 1].0 == wanted {
            return Some(&pairs[i - 1].1);
        }
        i -= 1;
    }
    None
}

} // verus!
