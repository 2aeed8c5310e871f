//! A `--flag value` command-line reader: positional words in order, named
//! values on demand, repeated flags collected in order.
use crate::text::{has_prefix, opt_view, parse_i64, parse_i64_chars, str_eq, to_chars, chars_starts_with};
use vstd::prelude::*;

verus! {

/// The characters of each string, in order.
pub open spec fn strings_view(v: Seq<String>) -> Seq<Seq<char>> {
    v.map_values(|s: String| s@)
}

/// A word that names a flag: it starts with `--`.
pub open spec fn is_flag(w: Seq<char>) -> bool {
    has_prefix(w, seq!['-', '-'])
}

/// The first word from index `i` on that is neither a flag nor the word
/// right after a flag.
pub open spec fn positional_from(words: Seq<Seq<char>>, i: int) -> Option<Seq<char>>
    decreases words.len() + 1 - i,
{
    if i < 0 || i >= words.len() {
        None
    } else if is_flag(words[i]) {
        positional_from(words, i + 2)
    } else {
        Some(words[i])
    }
}

/// From index `i` on, the word after each occurrence of `flag` that has one;
/// a word taken as a value is not read as a flag again.
pub open spec fn values_from(words: Seq<Seq<char>>, i: int, flag: Seq<char>) -> Seq<Seq<char>>
    decreases words.len() + 1 - i,
{
    if i < 0 || i >= words.len() {
        Seq::empty()
    } else if words[i] == flag && i + 1 < words.len() {
        seq![words[i + 1]] + values_from(words, i + 2, flag)
    } else {
        values_from(words, i + 1, flag)
    }
}

/// Every value given for `flag`, in order.
pub open spec fn flag_values(words: Seq<Seq<char>>, flag: Seq<char>) -> Seq<Seq<char>> {
    values_from(words, 0, flag)
}

/// The first value given for `flag`.
pub open spec fn flag_value(words: Seq<Seq<char>>, flag: Seq<char>) -> Option<Seq<char>> {
    let vs = flag_values(words, flag);
    if vs.len() > 0 {
        Some(vs[0])
    } else {
        None
    }
}

/// The first value given for `flag`, read as an `i64`; `None` when absent or
/// not a number.
pub open spec fn flag_i64(words: Seq<Seq<char>>, flag: Seq<char>) -> Option<i64> {
    match flag_value(words, flag) {
        Some(v) => parse_i64(v),
        None => None,
    }
}

/// The command line, read word by word.
pub struct Args<'a> {
    all: &'a [String],
}

impl<'a> View for Args<'a> {
    type V = Seq<Seq<char>>;

    closed spec fn view(&self) -> Seq<Seq<char>> {
        strings_view(self.all@)
    }
}

impl<'a> Args<'a> {
    pub fn new(all: &'a [String]) -> (r: Self)
        ensures
            r@ == strings_view(all@),
    {
        Self { all }
    }

    /// The first word that is not a flag or a flag's value.
    pub fn next_positional(&self) -> (r: Option<String>)
        ensures
            opt_view(r) == positional_from(self@, 0),
    {
        let dash = ['-', '-'];
        let mut i: usize = 0;
        while i < self.all.len()
            invariant
                positional_from(self@, i as int) == positional_from(self@, 0),
                self@ == strings_view(self.all@),
                dash@ == seq!['-', '-'],
            decreases self.all@.len() - i,
        {
            let word = to_chars(self.all[i].as_str());
            if chars_starts_with(word.as_slice(), dash.as_slice()) {
                if i + 1 < self.all.len() {
                    i = i + 2;
                } else {
                    assert(positional_from(self@, i + 2) == None::<Seq<char>>);
                    return None;
                }
            } else {
                return Some(self.all[i].clone());
            }
        }
        None
    }

    /// All values for a repeated flag, in order.
    pub fn values(&self, flag: &str) -> (r: Vec<String>)
        ensures
            strings_view(r@) == flag_values(self@, flag@),
    {
        let mut found: Vec<String> = Vec::new();
        let mut i: usize = 0;
        while i < self.all.len()
            invariant
                i <= self.all@.len() + 1,
                self@ == strings_view(self.all@),
                strings_view(found@) + values_from(self@, i as int, flag@) == values_from(
                    self@,
                    0,
                    flag@,
                ),
            decreases self.all@.len() + 1 - i,
        {
            let ghost before = found@;
            if str_eq(self.all[i].as_str(), flag) && i + 1 < self.all.len() {
                found.push(self.all[i + 1].clone());
                proof {
                    assert(strings_view(found@) == strings_view(before) + seq![self@[i + 1]]);
                }
                i = i + 2;
            } else {
                i = i + 1;
            }
        }
        assert(strings_view(found@) + Seq::<Seq<char>>::empty() == strings_view(found@));
        found
    }

    /// The first value for a flag.
    pub fn value(&self, flag: &str) -> (r: Option<String>)
        ensures
            opt_view(r) == flag_value(self@, flag@),
    {
        let mut vs = self.values(flag);
        if vs.len() > 0 {
            assert(strings_view(vs@)[0] == vs@[0]@);
            Some(vs.swap_remove(0))
        } else {
            None
        }
    }

    /// The first value for a flag, `None` when the flag is absent.
    pub fn opt_value(&self, flag: &str) -> (r: Option<String>)
        ensures
            opt_view(r) == flag_value(self@, flag@),
    {
        self.value(flag)
    }

    /// The first value for a flag, read as an `i64`.
    pub fn i64(&self, flag: &str) -> (r: Option<i64>)
        ensures
            r == flag_i64(self@, flag@),
    {
        match self.value(flag) {
            Some(v) => {
                let cs = to_chars(v.as_str());
                parse_i64_chars(cs.as_slice())
            },
            None => None,
        }
    }
}

} // verus!
