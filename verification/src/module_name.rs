//! Names of modules: segments separated by dots, such as `std.string`.
use vstd::prelude::*;
use vstd::string::StrSliceExecFns;

verus! {

/// The character that separates the segments of a module name.
pub open spec fn separator() -> char {
    '.'
}

/// `n` is the length of the first segment of `name`: the place of the first
/// separator, or the length of the name if it has none.
pub open spec fn is_head_len(name: Seq<char>, n: int) -> bool {
    &&& 0 <= n <= name.len()
    &&& forall|i: int| 0 <= i < n ==> name[i] != separator()
    &&& n < name.len() ==> name[n] == separator()
}

/// The length of the first segment of `name`.
pub open spec fn head_len(name: Seq<char>) -> int {
    choose|n: int| is_head_len(name, n)
}

/// The first segment of `name`: what stands before the first separator.
pub open spec fn head(name: Seq<char>) -> Seq<char> {
    name.subrange(0, head_len(name))
}

/// The name has one segment only.
pub open spec fn is_root(name: Seq<char>) -> bool {
    head_len(name) == name.len()
}

/// The prefix by which the module that tests a root module is named after it.
pub open spec fn test_prefix() -> Seq<char> {
    seq!['t', 'e', 's', 't', '_']
}

/// `name` starts with `prefix`.
pub open spec fn has_prefix(name: Seq<char>, prefix: Seq<char>) -> bool {
    prefix.len() <= name.len() && name.subrange(0, prefix.len() as int) == prefix
}

/// Whether private symbols of the module `ours` can be seen from the module
/// `theirs`: the two have the same first segment, or `theirs` is the root
/// module `test_x` where `x` is the first segment of `ours`.
pub open spec fn same_root_namespace(ours: Seq<char>, theirs: Seq<char>) -> bool {
    ||| head(ours) == head(theirs)
    ||| {
        &&& is_root(theirs)
        &&& has_prefix(theirs, test_prefix())
        &&& theirs.subrange(test_prefix().len() as int, theirs.len() as int) == head(ours)
    }
}

/// A name has one length of its first segment only.
pub proof fn lemma_head_len(name: Seq<char>, n: int)
    requires
        is_head_len(name, n),
    ensures
        head_len(name) == n,
{
    let m = head_len(name);
    if m < n {
        assert(name[m] != separator());
    } else if n < m {
        assert(name[n] != separator());
    }
}

/// The name of a module.
#[derive(Clone, Debug, PartialEq, Eq, Hash)]
pub struct ModuleName {
    pub value: String,
}

impl View for ModuleName {
    type V = Seq<char>;

    open spec fn view(&self) -> Seq<char> {
        self.value@
    }
}

/// `a[from_a..from_a + len]` and `b[from_b..from_b + len]` hold the same
/// characters.
fn same_chars(a: &str, from_a: usize, b: &str, from_b: usize, len: usize) -> (r: bool)
    requires
        from_a + len <= a@.len(),
        from_b + len <= b@.len(),
        from_a + len <= usize::MAX,
        from_b + len <= usize::MAX,
    ensures
        r == (a@.subrange(from_a as int, from_a + len) == b@.subrange(from_b as int, from_b + len)),
{
    let ghost sa = a@.subrange(from_a as int, from_a + len);
    let ghost sb = b@.subrange(from_b as int, from_b + len);
    let mut i: usize = 0;
    while i < len
        invariant
            from_a + len <= a@.len(),
            from_b + len <= b@.len(),
            from_a + len <= usize::MAX,
            from_b + len <= usize::MAX,
            sa == a@.subrange(from_a as int, from_a + len),
            sb == b@.subrange(from_b as int, from_b + len),
            i <= len,
            forall|j: int| 0 <= j < i ==> sa[j] == sb[j],
        decreases len - i,
    {
        if a.get_char(from_a + i) != b.get_char(from_b + i) {
            assert(sa[i as int] != sb[i as int]);
            return false;
        }
        assert(sa[i as int] == sb[i as int]);
        i += 1;
    }
    assert(sa =~= sb);
    true
}

/// The length of the first segment of `name`.
fn first_segment_len(name: &str) -> (r: usize)
    ensures
        r == head_len(name@),
        r <= name@.len(),
{
    let len = name.unicode_len();
    let mut i: usize = 0;
    while i < len && name.get_char(i) != '.'
        invariant
            len == name@.len(),
            i <= len,
            forall|j: int| 0 <= j < i ==> name@[j] != separator(),
        decreases len - i,
    {
        i += 1;
    }
    proof {
        lemma_head_len(name@, i as int);
    }
    i
}

impl ModuleName {
    pub fn new(name: &str) -> (r: ModuleName)
        ensures
            r@ == name@,
    {
        ModuleName { value: name.to_owned() }
    }

    /// A copy of the name.
    pub fn duplicate(&self) -> (r: ModuleName)
        ensures
            r == *self,
    {
        ModuleName { value: self.value.clone() }
    }

    pub fn as_str(&self) -> (r: &str)
        ensures
            r@ == self@,
    {
        self.value.as_str()
    }

    pub fn to_string(&self) -> (r: String)
        ensures
            r@ == self@,
    {
        self.value.clone()
    }

    /// True if the name has one segment only.
    pub fn is_root(&self) -> (r: bool)
        ensures
            r == is_root(self@),
    {
        let name = self.value.as_str();
        first_segment_len(name) == name.unicode_len()
    }

    /// True if the module is part of the standard library: its first segment
    /// is `std`, and more segments follow.
    pub fn is_std(&self) -> (r: bool)
        ensures
            r == (head(self@) == seq!['s', 't', 'd'] && !is_root(self@)),
    {
        let name = self.value.as_str();
        let first = first_segment_len(name);
        proof {
            reveal_strlit("std");
            assert("std"@.subrange(0, 3) =~= "std"@);
            assert("std"@ =~= seq!['s', 't', 'd']);
            if first != 3 {
                assert(head(self@).len() != 3);
            }
        }
        first == 3 && first < name.unicode_len() && same_chars(name, 0, "std", 0, 3)
    }

    /// The first segment of the name.
    pub fn head(&self) -> (r: String)
        ensures
            r@ == head(self@),
    {
        let name = self.value.as_str();
        let len = first_segment_len(name);
        name.substring_char(0, len).to_owned()
    }

    /// Whether private symbols of the module with this name can be seen from
    /// the module named `other`.
    ///
    /// That is so if both are in the same root namespace. It is also so if
    /// `other` is the root module `test_x` and this module is in the root
    /// namespace `x`: tests of a module may import the private symbols of that
    /// module, but not the other way around.
    pub fn shares_root_namespace(&self, other: &ModuleName) -> (r: bool)
        ensures
            r == same_root_namespace(self@, other@),
    {
        let ours = self.value.as_str();
        let theirs = other.value.as_str();
        let our_head = first_segment_len(ours);
        let their_head = first_segment_len(theirs);
        proof {
            if our_head != their_head {
                assert(head(self@).len() != head(other@).len());
            }
        }
        if our_head == their_head && same_chars(ours, 0, theirs, 0, our_head) {
            return true;
        }
        let their_len = theirs.unicode_len();
        if their_head != their_len {
            return false;
        }
        proof {
            reveal_strlit("test_");
            assert("test_"@.subrange(0, 5) =~= "test_"@);
            assert("test_"@ =~= test_prefix());
            if their_len >= 5 && their_len - 5 != our_head {
                assert(other@.subrange(5, their_len as int).len() != head(self@).len());
            }
        }
        if their_len < 5 || !same_chars(theirs, 0, "test_", 0, 5) {
            return false;
        }
        their_len - 5 == our_head && same_chars(theirs, 5, ours, 0, our_head)
    }
}

} // verus!
