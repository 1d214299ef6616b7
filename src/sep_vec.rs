//! A list of strings together with the separator that goes between them.
use vstd::prelude::*;
use vstd::string::*;

verus! {

/// `s` with `sep` inserted between each two neighbouring items.
pub open spec fn interleave(s: Seq<Seq<char>>, sep: Seq<char>) -> Seq<Seq<char>>
    decreases s.len(),
{
    if s.len() <= 1 {
        s
    } else {
        interleave(s.drop_last(), sep).push(sep).push(s.last())
    }
}

/// The items of `s` written one after another, with `sep` between each two.
pub open spec fn join(s: Seq<Seq<char>>, sep: Seq<char>) -> Seq<char>
    decreases s.len(),
{
    if s.len() == 0 {
        Seq::empty()
    } else if s.len() == 1 {
        s[0]
    } else {
        join(s.drop_last(), sep) + sep + s.last()
    }
}

/// A list of strings and the separator that goes between them.
#[derive(Debug, Clone)]
pub struct SepVec {
    vector: Vec<String>,
    separator: String,
}

/// The model of a `SepVec`: its items and its separator.
pub struct SepVecView {
    pub items: Seq<Seq<char>>,
    pub separator: Seq<char>,
}

impl View for SepVec {
    type V = SepVecView;

    closed spec fn view(&self) -> SepVecView {
        SepVecView { items: self.vector.deep_view(), separator: self.separator@ }
    }
}

/// A copy of `v`, item by item.
fn copy_strings(v: &Vec<String>) -> (r: Vec<String>)
    ensures
        r.deep_view() == v.deep_view(),
{
    let mut r: Vec<String> = Vec::new();
    let mut i: usize = 0;
    while i < v.len()
        invariant
            i <= v@.len(),
            r@.len() == i,
            forall|k: int| 0 <= k < i ==> #[trigger] r@[k]@ == v@[k]@,
        decreases v@.len() - i,
    {
        r.push(v[i].clone());
        i = i + 1;
    }
    assert(r.deep_view() =~= v.deep_view());
    r
}

impl SepVec {
    /// A list holding `starting`, separated by `separator`.
    pub fn new(starting: Vec<String>, separator: String) -> (r: SepVec)
        ensures
            r@.items == starting.deep_view(),
            r@.separator == separator@,
    {
        SepVec { vector: starting, separator }
    }

    /// The number of items.
    pub fn len_vector(&self) -> (r: usize)
        ensures
            r == self@.items.len(),
    {
        self.vector.len()
    }

    /// The number of items and separators together: the length of `to_vec`.
    pub fn len_total(&self) -> (r: usize)
        requires
            self@.items.len() <= usize::MAX / 2,
        ensures
            r == interleave(self@.items, self@.separator).len(),
    {
        proof {
            lemma_interleave_len(self@.items, self@.separator);
        }
        let n: usize = self.vector.len();
        if n == 0 {
            0
        } else {
            n * 2 - 1
        }
    }

    /// A copy of the items.
    pub fn inner_vec(&self) -> (r: Vec<String>)
        ensures
            r.deep_view() == self@.items,
    {
        copy_strings(&self.vector)
    }

    /// The items with the separator between each two of them.
    pub fn to_vec(&self) -> (r: Vec<String>)
        ensures
            r.deep_view() == interleave(self@.items, self@.separator),
    {
        let items = Ghost(self@.items);
        let sep = Ghost(self@.separator);
        let mut r: Vec<String> = Vec::new();
        let mut i: usize = 0;
        while i < self.vector.len()
            invariant
                items@ == self.vector.deep_view(),
                sep@ == self.separator@,
                i <= items@.len(),
                r.deep_view() == interleave(items@.take(i as int), sep@),
            decreases items@.len() - i,
        {
            if i > 0 {
                r.push(self.separator.clone());
            }
            r.push(self.vector[i].clone());
            proof {
                let next = items@.take(i + 1);
                assert(next.drop_last() =~= items@.take(i as int));
                if i == 0 {
                    assert(r.deep_view() =~= next);
                } else {
                    assert(r.deep_view() =~= interleave(items@.take(i as int), sep@).push(sep@).push(
                        next.last(),
                    ));
                }
            }
            i = i + 1;
        }
        assert(items@.take(i as int) =~= items@);
        r
    }

    /// The items written one after another, with the separator between each two.
    pub fn to_string(&self) -> (r: String)
        ensures
            r@ == join(self@.items, self@.separator),
    {
        let items = Ghost(self@.items);
        let sep = Ghost(self@.separator);
        let mut r = String::new();
        let mut i: usize = 0;
        while i < self.vector.len()
            invariant
                items@ == self.vector.deep_view(),
                sep@ == self.separator@,
                i <= items@.len(),
                r@ == join(items@.take(i as int), sep@),
            decreases items@.len() - i,
        {
            if i > 0 {
                r.append(self.separator.as_str());
            }
            r.append(self.vector[i].as_str());
            proof {
                let next = items@.take(i + 1);
                assert(next.drop_last() =~= items@.take(i as int));
                if i == 0 {
                    assert(r@ =~= next[0]);
                }
            }
            i = i + 1;
        }
        assert(items@.take(i as int) =~= items@);
        r
    }
}

/// `interleave` puts a separator between each two items.
proof fn lemma_interleave_len(s: Seq<Seq<char>>, sep: Seq<char>)
    ensures
        interleave(s, sep).len() == if s.len() == 0 {
            0
        } else {
            2 * s.len() - 1
        },
    decreases s.len(),
{
    if s.len() > 1 {
        lemma_interleave_len(s.drop_last(), sep);
    }
}

} // verus!
