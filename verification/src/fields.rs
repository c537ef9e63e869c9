//! Ordered lists of named text values, in which a name may repeat: the
//! parameters captured from a path, the pairs of a query string, headers.

use vstd::prelude::*;
use vstd::string::StringExecFns;
use crate::text::{cut, cut_at_first, split, split_on, texts};

verus! {

/// The first value bound to `name` in `pairs`, if there is one.
pub open spec fn first_value(pairs: Seq<(Seq<char>, Seq<char>)>, name: Seq<char>) -> Option<
    Seq<char>,
>
    decreases pairs.len(),
{
    if pairs.len() == 0 {
        None
    } else if pairs[0].0 == name {
        Some(pairs[0].1)
    } else {
        first_value(pairs.drop_first(), name)
    }
}

/// The pair that one piece of a query string stands for: the text before the
/// first `=` names it, the text after is its value. A piece without `=` is a
/// name with an empty value.
pub open spec fn query_pair(piece: Seq<char>) -> (Seq<char>, Seq<char>) {
    cut_at_first(piece, '=')
}

/// The pairs of a query string: its pieces between `&`, empty pieces left
/// out, each read as `name=value`. Nothing is decoded.
pub open spec fn query_pairs(query: Seq<char>) -> Seq<(Seq<char>, Seq<char>)> {
    split_on(query, '&').filter(|piece: Seq<char>| piece.len() > 0).map_values(
        |piece: Seq<char>| query_pair(piece),
    )
}

/// An ordered list of `(name, value)` pairs.
#[derive(Debug)]
pub struct Fields {
    pairs: Vec<(String, String)>,
}

impl View for Fields {
    type V = Seq<(Seq<char>, Seq<char>)>;

    closed spec fn view(&self) -> Seq<(Seq<char>, Seq<char>)> {
        self.pairs@.map_values(|p: (String, String)| (p.0@, p.1@))
    }
}

impl Fields {
    /// A list without pairs.
    pub fn new() -> (f: Fields)
        ensures
            f@ == Seq::<(Seq<char>, Seq<char>)>::empty(),
    {
        let f = Fields { pairs: Vec::new() };
        assert(f@ =~= Seq::<(Seq<char>, Seq<char>)>::empty());
        f
    }

    /// Adds a pair at the end.
    pub fn push(&mut self, name: String, value: String)
        ensures
            final(self)@ == old(self)@.push((name@, value@)),
    {
        self.pairs.push((name, value));
        assert(self@ =~= old(self)@.push((name@, value@)));
    }

    /// The number of pairs.
    pub fn len(&self) -> (n: usize)
        ensures
            n == self@.len(),
    {
        self.pairs.len()
    }

    /// The name of the pair at `index`.
    pub fn name_at(&self, index: usize) -> (name: &String)
        requires
            index < self@.len(),
        ensures
            name@ == self@[index as int].0,
    {
        &self.pairs[index].0
    }

    /// The value of the pair at `index`.
    pub fn value_at(&self, index: usize) -> (value: &String)
        requires
            index < self@.len(),
        ensures
            value@ == self@[index as int].1,
    {
        &self.pairs[index].1
    }

    /// The value of the first pair named `name`.
    pub fn get(&self, name: &str) -> (value: Option<&String>)
        ensures
            match value {
                Some(v) => first_value(self@, name@) == Some(v@),
                None => first_value(self@, name@) is None,
            },
    {
        let wanted = String::from_str(name);
        let n: usize = self.pairs.len();
        let mut i: usize = 0;
        proof {
            assert(self@.subrange(0, self@.len() as int) =~= self@);
        }
        while i < n
            invariant
                n == self@.len(),
                n == self.pairs@.len(),
                i <= n,
                wanted@ == name@,
                first_value(self@, name@) == first_value(self@.subrange(i as int, n as int), name@),
            decreases n - i,
        {
            let ghost rest = self@.subrange(i as int, n as int);
            proof {
                assert(rest[0] == self@[i as int]);
                assert(rest.drop_first() =~= self@.subrange(i + 1, n as int));
            }
            if self.pairs[i].0 == wanted {
                return Some(&self.pairs[i].1);
            }
            i = i + 1;
        }
        None
    }

    /// Reads a query string such as `a=1&b=2`.
    pub fn parse_query(query: &str) -> (f: Fields)
        ensures
            f@ == query_pairs(query@),
    {
        let pieces = split(query, '&');
        let mut f = Fields::new();
        let n: usize = pieces.len();
        let mut i: usize = 0;
        let ghost all = split_on(query@, '&');
        let ghost keep = |piece: Seq<char>| piece.len() > 0;
        let ghost pair = |piece: Seq<char>| query_pair(piece);
        proof {
            assert(all.subrange(0, 0) =~= Seq::<Seq<char>>::empty());
            assert(all.subrange(0, 0).filter(keep) =~= Seq::<Seq<char>>::empty()) by {
                reveal(Seq::filter);
            }
        }
        while i < n
            invariant
                texts(pieces@) == all,
                n == pieces@.len(),
                i <= n,
                keep == |piece: Seq<char>| piece.len() > 0,
                pair == |piece: Seq<char>| query_pair(piece),
                f@ == all.subrange(0, i as int).filter(keep).map_values(pair),
            decreases n - i,
        {
            let ghost before = all.subrange(0, i as int);
            let ghost after = all.subrange(0, i + 1);
            proof {
                assert(after.drop_last() =~= before);
                assert(after.last() == all[i as int]);
                assert(all[i as int] == pieces@[i as int]@);
                reveal(Seq::filter);
            }
            let piece: &String = &pieces[i];
            let (name, value) = cut(piece.as_str(), '=');
            if !piece.as_str().is_empty() {
                f.push(name, value);
                proof {
                    assert(after.filter(keep) =~= before.filter(keep).push(all[i as int]));
                    assert(f@ =~= after.filter(keep).map_values(pair));
                }
            } else {
                proof {
                    assert(after.filter(keep) =~= before.filter(keep));
                }
            }
            i = i + 1;
        }
        proof {
            assert(all.subrange(0, n as int) =~= all);
        }
        f
    }
}

} // verus!
