//! Attributes and the dictionaries that hold them.

use crate::llvm::identifier::Identifier;
use crate::llvm::types::{Type, TypeModel};
use crate::text::same_text;
use vstd::prelude::*;

verus! {

/// Flags that relax floating-point arithmetic, one bit each.
#[derive(Clone, Copy, Debug, PartialEq, Eq, Structural)]
pub struct FastmathFlags(pub u32);

impl Default for FastmathFlags {
    /// No flag.
    fn default() -> (flags: FastmathFlags)
        ensures
            flags == FastmathFlags(0),
    {
        FastmathFlags(0)
    }
}

/// An attribute.
#[derive(Debug)]
pub enum Attr {
    /// A type.
    Type(Type),
    /// An identifier.
    Identifier(Identifier),
    /// An address space.
    AddressSpace(u32),
    /// An alignment in bytes.
    Alignment(u32),
    /// Any other attribute, by its text. An outlined one is printed apart from
    /// its operation.
    Other { text: String, outlined: bool },
}

/// An attribute as a mathematical value.
pub enum AttrModel {
    Type(TypeModel),
    Identifier(Seq<char>),
    AddressSpace(u32),
    Alignment(u32),
    Other { text: Seq<char>, outlined: bool },
}

impl View for Attr {
    type V = AttrModel;

    open spec fn view(&self) -> AttrModel {
        match self {
            Attr::Type(ty) => AttrModel::Type(ty@),
            Attr::Identifier(name) => AttrModel::Identifier(name@),
            Attr::AddressSpace(space) => AttrModel::AddressSpace(*space),
            Attr::Alignment(bytes) => AttrModel::Alignment(*bytes),
            Attr::Other { text, outlined } => AttrModel::Other { text: text@, outlined: *outlined },
        }
    }
}

impl AttrModel {
    /// Whether the attribute is printed apart from its operation.
    pub open spec fn outlined(self) -> bool {
        match self {
            AttrModel::Other { outlined, .. } => outlined,
            _ => false,
        }
    }
}

impl Attr {
    /// A second attribute of the same value.
    pub fn duplicate(&self) -> (copy: Attr)
        ensures
            copy@ == self@,
    {
        match self {
            Attr::Type(ty) => Attr::Type(ty.duplicate()),
            Attr::Identifier(name) => Attr::Identifier(name.duplicate()),
            Attr::AddressSpace(space) => Attr::AddressSpace(*space),
            Attr::Alignment(bytes) => Attr::Alignment(*bytes),
            Attr::Other { text, outlined } => Attr::Other {
                text: text.clone(),
                outlined: *outlined,
            },
        }
    }

    /// Whether the attribute is printed apart from its operation.
    pub fn is_outlined(&self) -> (outlined: bool)
        ensures
            outlined == self@.outlined(),
    {
        match self {
            Attr::Other { outlined, .. } => *outlined,
            _ => false,
        }
    }
}

/// The attributes of an operation: each key has one attribute.
#[derive(Debug)]
pub struct AttributeDict {
    entries: Vec<(String, Attr)>,
}

/// The mapping that a list of entries with distinct keys stands for.
pub open spec fn mapping(entries: Seq<(String, Attr)>) -> Map<Seq<char>, AttrModel>
    decreases entries.len(),
{
    if entries.len() == 0 {
        Map::empty()
    } else {
        mapping(entries.drop_last()).insert(entries.last().0@, entries.last().1@)
    }
}

/// No key occurs twice.
pub open spec fn distinct(entries: Seq<(String, Attr)>) -> bool {
    forall|i: int, j: int|
        0 <= i < j < entries.len() ==> #[trigger] entries[i].0@ != #[trigger] entries[j].0@
}

proof fn lemma_mapping(entries: Seq<(String, Attr)>)
    requires
        distinct(entries),
    ensures
        forall|i: int|
            0 <= i < entries.len() ==> mapping(entries).contains_key(#[trigger] entries[i].0@)
                && mapping(entries)[entries[i].0@] == entries[i].1@,
        forall|key: Seq<char>| #[trigger]
            mapping(entries).contains_key(key) ==> exists|i: int|
                0 <= i < entries.len() && #[trigger] entries[i].0@ == key,
    decreases entries.len(),
{
    if entries.len() > 0 {
        let front = entries.drop_last();
        lemma_mapping(front);
        assert forall|i: int| 0 <= i < entries.len() implies mapping(entries).contains_key(
            #[trigger] entries[i].0@,
        ) && mapping(entries)[entries[i].0@] == entries[i].1@ by {
            if i < front.len() {
                assert(front[i] == entries[i]);
                assert(entries[i].0@ != entries[entries.len() - 1].0@);
            }
        }
        assert forall|key: Seq<char>| #[trigger]
            mapping(entries).contains_key(key) implies exists|i: int|
            0 <= i < entries.len() && #[trigger] entries[i].0@ == key by {
            if key == entries.last().0@ {
                assert(entries[entries.len() - 1].0@ == key);
            } else {
                assert(mapping(front).contains_key(key));
                let i = choose|i: int| 0 <= i < front.len() && #[trigger] front[i].0@ == key;
                assert(entries[i].0@ == key);
            }
        }
    }
}

impl AttributeDict {
    /// The attribute of each key.
    pub closed spec fn view(&self) -> Map<Seq<char>, AttrModel> {
        mapping(self.entries@)
    }

    #[verifier::type_invariant]
    spec fn well_formed(self) -> bool {
        distinct(self.entries@)
    }

    /// No attributes.
    pub fn new() -> (dict: AttributeDict)
        ensures
            dict@ == Map::<Seq<char>, AttrModel>::empty(),
    {
        AttributeDict { entries: Vec::new() }
    }

    /// The position of `key` among the entries.
    fn position(&self, key: &str) -> (found: Option<usize>)
        ensures
            match found {
                Some(i) => i < self.entries.len() && self.entries@[i as int].0@ == key@,
                None => forall|i: int|
                    0 <= i < self.entries.len() ==> #[trigger] self.entries@[i].0@ != key@,
            },
    {
        let mut i: usize = 0;
        while i < self.entries.len()
            invariant
                i <= self.entries.len(),
                forall|k: int| 0 <= k < i ==> #[trigger] self.entries@[k].0@ != key@,
            decreases self.entries.len() - i,
        {
            if same_text(self.entries[i].0.as_str(), key) {
                return Some(i);
            }
            i += 1;
        }
        None
    }

    /// The attribute of `key`.
    pub fn get(&self, key: &str) -> (found: Option<&Attr>)
        ensures
            match found {
                Some(attr) => self@.contains_key(key@) && attr@ == self@[key@],
                None => !self@.contains_key(key@),
            },
    {
        proof {
            use_type_invariant(self);
            lemma_mapping(self.entries@);
        }
        match self.position(key) {
            Some(i) => Some(&self.entries[i].1),
            None => None,
        }
    }

    /// Gives `key` the attribute `value`, in place of the one it had.
    pub fn set(&mut self, key: &str, value: Attr)
        ensures
            final(self)@ == old(self)@.insert(key@, value@),
    {
        proof {
            use_type_invariant(&*self);
        }
        let at = self.position(key);
        let mut entries: Vec<(String, Attr)> = Vec::new();
        std::mem::swap(&mut entries, &mut self.entries);
        let ghost before = entries@;
        match at {
            Some(i) => {
                entries.set(i, (key.to_owned(), value));
                proof {
                    lemma_mapping(before);
                    lemma_mapping(entries@);
                    assert forall|k: Seq<char>| #[trigger]
                        mapping(entries@).contains_key(k) <==> mapping(before).insert(
                            key@,
                            value@,
                        ).contains_key(k) by {
                        if mapping(before).contains_key(k) {
                            let j = choose|j: int|
                                0 <= j < before.len() && #[trigger] before[j].0@ == k;
                            assert(entries@[j].0@ == k);
                        }
                        if mapping(entries@).contains_key(k) {
                            let j = choose|j: int|
                                0 <= j < entries@.len() && #[trigger] entries@[j].0@ == k;
                            assert(before[j].0@ == k);
                        }
                        assert(entries@[i as int].0@ == key@);
                    }
                    assert forall|k: Seq<char>| #[trigger]
                        mapping(entries@).contains_key(k) implies mapping(entries@)[k]
                        == mapping(before).insert(key@, value@)[k] by {
                        let j = choose|j: int|
                            0 <= j < entries@.len() && #[trigger] entries@[j].0@ == k;
                        assert(before[j].0@ == k);
                    }
                    assert(mapping(entries@) =~= mapping(before).insert(key@, value@));
                }
            },
            None => {
                entries.push((key.to_owned(), value));
                proof {
                    assert(entries@.drop_last() =~= before);
                }
            },
        }
        self.entries = entries;
    }

    /// Takes over the attributes of `other`; where a key has one in both, that
    /// of `other` stays.
    pub fn extend(&mut self, other: AttributeDict)
        ensures
            final(self)@ == old(self)@.union_prefer_right(other@),
    {
        proof {
            assert(self@ =~= old(self)@.union_prefer_right(mapping(other.entries@.take(0))));
        }
        let mut i: usize = 0;
        while i < other.entries.len()
            invariant
                i <= other.entries.len(),
                self@ == old(self)@.union_prefer_right(mapping(other.entries@.take(i as int))),
            decreases other.entries.len() - i,
        {
            let ghost part = other.entries@.take(i + 1);
            self.set(other.entries[i].0.as_str(), other.entries[i].1.duplicate());
            proof {
                assert(part.drop_last() =~= other.entries@.take(i as int));
                assert(self@ =~= old(self)@.union_prefer_right(mapping(part)));
            }
            i += 1;
        }
        proof {
            assert(other.entries@.take(i as int) =~= other.entries@);
        }
    }

    /// What is left without the outlined attributes and without those of
    /// `keys`.
    pub open spec fn printed(self, keys: Seq<Seq<char>>) -> Map<Seq<char>, AttrModel> {
        self@.restrict(
            Set::new(
                |key: Seq<char>|
                    self@.contains_key(key) && !self@[key].outlined() && !keys.contains(key),
            ),
        )
    }

    /// The attributes that are neither outlined nor under one of `keys`.
    pub fn without(&self, keys: &[&str]) -> (rest: AttributeDict)
        ensures
            rest@ == self.printed(Seq::new(keys@.len(), |i: int| keys@[i]@)),
    {
        proof {
            use_type_invariant(self);
            lemma_mapping(self.entries@);
        }
        let ghost names = Seq::new(keys@.len(), |i: int| keys@[i]@);
        let mut rest = AttributeDict::new();
        let mut i: usize = 0;
        while i < self.entries.len()
            invariant
                i <= self.entries.len(),
                distinct(self.entries@),
                names == Seq::new(keys@.len(), |k: int| keys@[k]@),
                forall|key: Seq<char>| #[trigger]
                    rest@.contains_key(key) <==> exists|k: int|
                        0 <= k < i && #[trigger] self.entries@[k].0@ == key
                            && !self.entries@[k].1@.outlined() && !names.contains(key),
                forall|k: int|
                    0 <= k < i && rest@.contains_key(#[trigger] self.entries@[k].0@)
                        ==> rest@[self.entries@[k].0@] == self.entries@[k].1@,
            decreases self.entries.len() - i,
        {
            let key = self.entries[i].0.as_str();
            let ghost before = rest@;
            let mut skipped: bool = self.entries[i].1.is_outlined();
            let mut j: usize = 0;
            while j < keys.len()
                invariant
                    j <= keys.len(),
                    i < self.entries.len(),
                    key@ == self.entries@[i as int].0@,
                    names == Seq::new(keys@.len(), |k: int| keys@[k]@),
                    skipped == (self.entries@[i as int].1@.outlined() || exists|k: int|
                        0 <= k < j && #[trigger] names[k] == key@),
                decreases keys.len() - j,
            {
                if same_text(keys[j], key) {
                    assert(names[j as int] == key@);
                    skipped = true;
                }
                j += 1;
            }
            proof {
                assert(skipped == (self.entries@[i as int].1@.outlined() || names.contains(key@)));
            }
            if !skipped {
                rest.set(key, self.entries[i].1.duplicate());
            }
            proof {
                assert forall|other: Seq<char>| #[trigger]
                    rest@.contains_key(other) <==> exists|k: int|
                        0 <= k < i + 1 && #[trigger] self.entries@[k].0@ == other
                            && !self.entries@[k].1@.outlined() && !names.contains(other) by {
                    if before.contains_key(other) {
                        let k = choose|k: int|
                            0 <= k < i && #[trigger] self.entries@[k].0@ == other
                                && !self.entries@[k].1@.outlined() && !names.contains(other);
                        assert(self.entries@[k].0@ == other);
                    }
                    assert(self.entries@[i as int].0@ == key@);
                }
            }
            i += 1;
        }
        proof {
            assert forall|key: Seq<char>| #[trigger]
                rest@.contains_key(key) <==> self.printed(names).contains_key(key) by {
                if self@.contains_key(key) {
                    let k = choose|k: int|
                        0 <= k < self.entries@.len() && #[trigger] self.entries@[k].0@ == key;
                    assert(self.entries@[k].0@ == key);
                }
            }
            assert(rest@ =~= self.printed(names));
        }
        rest
    }
}

/// What is printed with an operation are its attributes but for those that are
/// printed apart from it and those that are left out by name, each as it is.
pub proof fn attributes_are_printed_unless_left_out(
    dict: AttributeDict,
    keys: &[&str],
    rest: AttributeDict,
    key: Seq<char>,
)
    requires
        call_ensures(AttributeDict::without, (&dict, keys), rest),
    ensures
        rest@.contains_key(key) ==> dict@.contains_key(key) && rest@[key] == dict@[key],
        rest@.contains_key(key) <==> dict@.contains_key(key) && !(dict@[key] matches
            AttrModel::Other { outlined: true, .. }) && !exists|i: int|
            0 <= i < keys@.len() && #[trigger] keys@[i]@ == key,
{
    let names = Seq::new(keys@.len(), |i: int| keys@[i]@);
    if names.contains(key) {
        let i = names.index_of(key);
        assert(keys@[i]@ == key);
    }
    assert forall|i: int| 0 <= i < keys@.len() && #[trigger] keys@[i]@ == key implies names.contains(
        key,
    ) by {
        assert(names[i] == key);
    }
}

} // verus!
