//! The validation error map: field names, each with its messages, in the
//! order the fields were first reported.

use crate::text::texts;
use vstd::prelude::*;

verus! {

/// Messages per field. A field occurs once; fields come in the order they
/// were first reported and a field's messages in the order they were found.
#[derive(Debug, Clone, PartialEq, Eq)]
pub struct ErrorMap {
    pub entries: Vec<(String, Vec<String>)>,
}

impl View for ErrorMap {
    type V = Seq<(Seq<char>, Seq<Seq<char>>)>;

    open spec fn view(&self) -> Seq<(Seq<char>, Seq<Seq<char>>)> {
        Seq::new(self.entries@.len(), |i: int| (self.entries@[i].0@, texts(self.entries@[i].1@)))
    }
}

/// The place of `field` in `m`, or -1 where `m` does not hold it.
pub open spec fn index_of(m: Seq<(Seq<char>, Seq<Seq<char>>)>, field: Seq<char>) -> int
    decreases m.len(),
{
    if m.len() == 0 {
        -1
    } else if index_of(m.drop_last(), field) >= 0 {
        index_of(m.drop_last(), field)
    } else if m.last().0 == field {
        m.len() - 1
    } else {
        -1
    }
}

/// No field occurs twice in `m`.
pub open spec fn distinct_fields(m: Seq<(Seq<char>, Seq<Seq<char>>)>) -> bool {
    forall|i: int, j: int| 0 <= i < j < m.len() ==> m[i].0 != m[j].0
}

/// `m` with `msg` added as the last message of `field`; a field that `m`
/// does not hold yet goes to the end.
pub open spec fn add_message(
    m: Seq<(Seq<char>, Seq<Seq<char>>)>,
    field: Seq<char>,
    msg: Seq<char>,
) -> Seq<(Seq<char>, Seq<Seq<char>>)> {
    let i = index_of(m, field);
    if i >= 0 {
        m.update(i, (field, m[i].1.push(msg)))
    } else {
        m.push((field, seq![msg]))
    }
}

/// The messages of `field` in `m`, empty where `m` does not hold the field.
pub open spec fn messages_of(m: Seq<(Seq<char>, Seq<Seq<char>>)>, field: Seq<char>) -> Seq<
    Seq<char>,
> {
    let i = index_of(m, field);
    if i >= 0 {
        m[i].1
    } else {
        Seq::empty()
    }
}

/// `index_of` finds the first entry of the field, and fails only where there is none.
pub proof fn lemma_index_of(m: Seq<(Seq<char>, Seq<Seq<char>>)>, field: Seq<char>)
    ensures
        -1 <= index_of(m, field) < m.len(),
        index_of(m, field) >= 0 ==> m[index_of(m, field)].0 == field,
        forall|k: int| 0 <= k < m.len() && m[k].0 == field ==> 0 <= index_of(m, field) <= k,
    decreases m.len(),
{
    if m.len() > 0 {
        lemma_index_of(m.drop_last(), field);
        let i = index_of(m.drop_last(), field);
        assert forall|k: int| 0 <= k < m.len() && m[k].0 == field implies 0 <= index_of(m, field)
            <= k by {
            if k < m.len() - 1 {
                assert(m.drop_last()[k] == m[k]);
            }
        }
    }
}

/// Adding a message keeps the fields distinct, keeps every earlier entry in
/// its place and puts the message last under its field.
pub proof fn lemma_add_message(
    m: Seq<(Seq<char>, Seq<Seq<char>>)>,
    field: Seq<char>,
    msg: Seq<char>,
)
    requires
        distinct_fields(m),
    ensures
        distinct_fields(add_message(m, field, msg)),
        messages_of(add_message(m, field, msg), field) == messages_of(m, field).push(msg),
        forall|other: Seq<char>|
            other != field ==> messages_of(add_message(m, field, msg), other) == messages_of(
                m,
                other,
            ),
{
    let after = add_message(m, field, msg);
    lemma_index_of(m, field);
    lemma_index_of(after, field);
    let i = index_of(m, field);
    if i >= 0 {
        assert(after[i].0 == field);
    } else {
        assert(after[m.len() as int].0 == field);
        assert forall|k: int| 0 <= k < m.len() implies after[k].0 != field by {
            assert(after[k] == m[k]);
        }
    }
    assert(messages_of(after, field) =~= messages_of(m, field).push(msg));
    assert forall|other: Seq<char>| other != field implies messages_of(after, other)
        == messages_of(m, other) by {
        lemma_index_of(m, other);
        lemma_index_of(after, other);
        let a = index_of(m, other);
        let b = index_of(after, other);
        if a >= 0 {
            assert(after[a].0 == other);
        }
        if b >= 0 {
            assert(b < m.len() || after[b].0 == field);
            assert(m[b].0 == other);
        }
    }
}

impl ErrorMap {
    /// No field occurs twice.
    pub open spec fn well_formed(&self) -> bool {
        distinct_fields(self@)
    }

    /// A map without fields.
    pub fn new() -> (m: Self)
        ensures
            m@ == Seq::<(Seq<char>, Seq<Seq<char>>)>::empty(),
            m.well_formed(),
    {
        let m = ErrorMap { entries: Vec::new() };
        assert(m@ =~= Seq::<(Seq<char>, Seq<Seq<char>>)>::empty());
        m
    }

    /// Number of fields.
    pub fn len(&self) -> (n: usize)
        ensures
            n == self@.len(),
    {
        self.entries.len()
    }

    /// The place of `field` among the entries, if it is there.
    pub fn position(&self, field: &str) -> (r: Option<usize>)
        ensures
            match r {
                Some(i) => i == index_of(self@, field@) && i < self.entries@.len(),
                None => index_of(self@, field@) == -1,
            },
    {
        let key = String::from_str(field);
        let mut i: usize = 0;
        while i < self.entries.len()
            invariant
                i <= self.entries.len(),
                key@ == field@,
                forall|k: int| 0 <= k < i ==> self@[k].0 != field@,
            decreases self.entries.len() - i,
        {
            if self.entries[i].0 == key {
                proof {
                    lemma_index_of(self@, field@);
                    assert(self@[i as int].0 == field@);
                }
                return Some(i);
            }
            i = i + 1;
        }
        proof {
            lemma_index_of(self@, field@);
        }
        None
    }

    /// The messages recorded for `field`; none where the field is absent.
    pub fn get(&self, field: &str) -> (r: Vec<String>)
        ensures
            texts(r@) == messages_of(self@, field@),
    {
        match self.position(field) {
            Some(i) => {
                let r = self.entries[i].1.clone();
                assert(texts(r@) =~= messages_of(self@, field@));
                r
            },
            None => {
                let r: Vec<String> = Vec::new();
                assert(texts(r@) =~= messages_of(self@, field@));
                r
            },
        }
    }

    /// Records `message` as the newest message of `field`.
    pub fn insert(&mut self, field: &str, message: String)
        ensures
            final(self)@ == add_message(old(self)@, field@, message@),
            old(self).well_formed() ==> final(self).well_formed(),
    {
        proof {
            if self.well_formed() {
                lemma_add_message(self@, field@, message@);
            }
        }
        match self.position(field) {
            Some(i) => {
                let ghost before = self@;
                let (key, mut list) = self.entries.remove(i);
                list.push(message);
                self.entries.insert(i, (key, list));
                assert(self@ =~= add_message(before, field@, message@)) by {
                    assert(texts(list@) =~= before[i as int].1.push(message@));
                    lemma_index_of(before, field@);
                }
            },
            None => {
                let ghost before = self@;
                let mut list: Vec<String> = Vec::new();
                list.push(message);
                self.entries.push((String::from_str(field), list));
                assert(self@ =~= add_message(before, field@, message@)) by {
                    assert(texts(list@) =~= seq![message@]);
                }
            },
        }
    }
}

} // verus!
