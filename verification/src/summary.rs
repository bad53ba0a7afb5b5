//! The two sets a look at a mailbox deals with: the numbers of the unseen
//! messages and the subjects found in them.
//!
//! Both are kept as sequences without repetition, in the order in which
//! their members first came.

use vstd::prelude::*;
use vstd::string::*;
use vstd::seq_lib::lemma_seq_contains_after_push;
use crate::text::{decimal, decimal_string, texts};

verus! {

/// `s` without repetitions: of equal members only the first stays.
pub open spec fn distinct<A>(s: Seq<A>) -> Seq<A>
    decreases s.len(),
{
    if s.len() == 0 {
        Seq::empty()
    } else {
        let before = distinct(s.drop_last());
        if before.contains(s.last()) {
            before
        } else {
            before.push(s.last())
        }
    }
}

/// `distinct` keeps the members of a sequence and repeats none.
pub proof fn lemma_distinct<A>(s: Seq<A>)
    ensures
        distinct(s).no_duplicates(),
        forall|x: A| distinct(s).contains(x) <==> s.contains(x),
        distinct(s).len() <= s.len(),
        s.len() > 0 ==> distinct(s).len() > 0,
        s.len() > 0 ==> distinct(s)[0] == s[0],
    decreases s.len(),
{
    if s.len() > 0 {
        let init = s.drop_last();
        let before = distinct(init);
        lemma_distinct(init);
        assert(init.push(s.last()) == s);
        assert forall|x: A| distinct(s).contains(x) <==> s.contains(x) by {
            lemma_seq_contains_after_push(init, s.last(), x);
            lemma_seq_contains_after_push(before, s.last(), x);
        }
        if init.len() == 0 {
            assert(before.len() == 0);
            assert(!before.contains(s.last()));
        }
    }
}

/// The comma-separated numerals of `ids`, in order: the form in which a
/// batch of messages is named to the server.
pub open spec fn sequence_set_text(ids: Seq<u32>) -> Seq<char>
    decreases ids.len(),
{
    if ids.len() == 0 {
        Seq::empty()
    } else if ids.len() == 1 {
        decimal(ids[0] as nat)
    } else {
        sequence_set_text(ids.drop_last()) + seq![','] + decimal(ids.last() as nat)
    }
}

/// The text that stands in for the subjects of `count` unseen messages
/// when they cannot be had.
pub open spec fn unread_text(count: nat) -> Seq<char> {
    "unread "@ + decimal(count)
}

/// The sequence numbers of the unseen messages that one search returned.
#[derive(Debug, PartialEq, Eq)]
pub struct UnseenSet {
    ids: Vec<u32>,
}

impl View for UnseenSet {
    type V = Seq<u32>;

    closed spec fn view(&self) -> Seq<u32> {
        self.ids@
    }
}

fn position_of(ids: &Vec<u32>, id: u32) -> (found: Option<usize>)
    ensures
        found is Some <==> ids@.contains(id),
        found matches Some(i) ==> i < ids@.len() && ids@[i as int] == id,
{
    let mut i: usize = 0;
    while i < ids.len()
        invariant
            i <= ids@.len(),
            forall|j: int| 0 <= j < i ==> ids@[j] != id,
        decreases ids@.len() - i,
    {
        if ids[i] == id {
            return Some(i);
        }
        i = i + 1;
    }
    None
}

impl UnseenSet {
    #[verifier::type_invariant]
    spec fn repeats_nothing(self) -> bool {
        self.ids@.no_duplicates()
    }

    /// The set of the given numbers. A number given twice counts once.
    pub fn from_ids(ids: &Vec<u32>) -> (set: UnseenSet)
        ensures
            set@ == distinct(ids@),
    {
        let mut kept: Vec<u32> = Vec::new();
        let mut i: usize = 0;
        proof {
            assert(ids@.take(0) == Seq::<u32>::empty());
        }
        while i < ids.len()
            invariant
                i <= ids@.len(),
                kept@ == distinct(ids@.take(i as int)),
            decreases ids@.len() - i,
        {
            let id = ids[i];
            proof {
                let prefix = ids@.take(i as int + 1);
                assert(prefix.drop_last() == ids@.take(i as int));
                assert(prefix.last() == id);
            }
            if position_of(&kept, id).is_none() {
                kept.push(id);
            }
            i = i + 1;
        }
        proof {
            assert(ids@.take(ids@.len() as int) == ids@);
            lemma_distinct(ids@);
        }
        UnseenSet { ids: kept }
    }

    /// How many messages are unseen.
    pub fn len(&self) -> (count: usize)
        ensures
            count == self@.len(),
            self@.no_duplicates(),
    {
        proof {
            use_type_invariant(self);
        }
        self.ids.len()
    }

    /// Whether nothing is unseen.
    pub fn is_empty(&self) -> (empty: bool)
        ensures
            empty == (self@.len() == 0),
    {
        self.ids.len() == 0
    }

    /// Whether message `id` is among the unseen.
    pub fn contains(&self, id: u32) -> (found: bool)
        ensures
            found == self@.contains(id),
    {
        position_of(&self.ids, id).is_some()
    }

    /// The numbers, each once, in the order in which they were given.
    pub fn ids(&self) -> (ids: &Vec<u32>)
        ensures
            ids@ == self@,
            ids@.no_duplicates(),
    {
        proof {
            use_type_invariant(self);
        }
        &self.ids
    }

    /// Names the whole set in one retrieval request: the numbers joined
    /// by commas.
    pub fn sequence_set(&self) -> (text: String)
        ensures
            text@ == sequence_set_text(self@),
    {
        let mut text = String::new();
        let mut i: usize = 0;
        proof {
            assert(self.ids@.take(0) == Seq::<u32>::empty());
        }
        while i < self.ids.len()
            invariant
                i <= self.ids@.len(),
                text@ == sequence_set_text(self.ids@.take(i as int)),
            decreases self.ids@.len() - i,
        {
            let id = self.ids[i];
            proof {
                let prefix = self.ids@.take(i as int + 1);
                assert(prefix.drop_last() == self.ids@.take(i as int));
                assert(prefix.last() == id);
                reveal_strlit(",");
                assert(","@ == seq![',']);
            }
            if i > 0 {
                text.append(",");
            }
            let numeral = decimal_string(id as u64);
            text.append(numeral.as_str());
            i = i + 1;
        }
        proof {
            assert(self.ids@.take(self.ids@.len() as int) == self.ids@);
        }
        text
    }
}

impl Clone for UnseenSet {
    fn clone(&self) -> (copy: UnseenSet)
        ensures
            copy@ == self@,
    {
        proof {
            use_type_invariant(self);
        }
        let ids = self.ids.clone();
        assert(ids@ == self.ids@);
        UnseenSet { ids }
    }
}

/// The subjects of the unseen messages, each once. A summary is never
/// empty.
#[derive(Debug, PartialEq, Eq)]
pub struct MessageSummary {
    subjects: Vec<String>,
}

impl View for MessageSummary {
    type V = Seq<Seq<char>>;

    closed spec fn view(&self) -> Seq<Seq<char>> {
        texts(self.subjects@)
    }
}

fn holds(subjects: &Vec<String>, subject: &String) -> (found: bool)
    ensures
        found == texts(subjects@).contains(subject@),
{
    let mut i: usize = 0;
    while i < subjects.len()
        invariant
            i <= subjects@.len(),
            forall|j: int| 0 <= j < i ==> texts(subjects@)[j] != subject@,
        decreases subjects@.len() - i,
    {
        if subjects[i] == *subject {
            assert(texts(subjects@)[i as int] == subject@);
            return true;
        }
        i = i + 1;
    }
    false
}

impl MessageSummary {
    #[verifier::type_invariant]
    spec fn well_formed(self) -> bool {
        &&& self.subjects@.len() > 0
        &&& texts(self.subjects@).no_duplicates()
    }

    /// The summary of one subject.
    pub fn single(subject: String) -> (summary: MessageSummary)
        ensures
            summary@ == seq![subject@],
    {
        let mut subjects: Vec<String> = Vec::new();
        subjects.push(subject);
        assert(texts(subjects@) == seq![subject@]);
        MessageSummary { subjects }
    }

    /// The summary that reports only how many messages are unseen.
    pub fn fallback(count: usize) -> (summary: MessageSummary)
        ensures
            summary@ == seq![unread_text(count as nat)],
    {
        let mut text = String::from_str("unread ");
        let numeral = decimal_string(count as u64);
        text.append(numeral.as_str());
        MessageSummary::single(text)
    }

    /// The summary with one more subject, or the same summary where it
    /// holds that subject already.
    pub fn with(self, subject: String) -> (summary: MessageSummary)
        ensures
            summary@ == if self@.contains(subject@) {
                self@
            } else {
                self@.push(subject@)
            },
    {
        proof {
            use_type_invariant(&self);
        }
        if holds(&self.subjects, &subject) {
            self
        } else {
            let mut subjects = self.subjects;
            let ghost before = subjects@;
            subjects.push(subject);
            proof {
                assert(texts(subjects@) == texts(before).push(subject@));
                assert forall|i: int, j: int|
                    0 <= i < texts(subjects@).len() && 0 <= j < texts(subjects@).len() && i
                        != j implies texts(subjects@)[i] != texts(subjects@)[j] by {
                    if i < before.len() && j < before.len() {
                        assert(texts(before)[i] != texts(before)[j]);
                    } else if i < before.len() {
                        assert(texts(before).contains(texts(before)[i]));
                    } else {
                        assert(texts(before).contains(texts(before)[j]));
                    }
                }
            }
            MessageSummary { subjects }
        }
    }

    /// Whether the summary holds the subject.
    pub fn contains(&self, subject: &str) -> (found: bool)
        ensures
            found == self@.contains(subject@),
    {
        holds(&self.subjects, &String::from_str(subject))
    }

    /// The number of different subjects: at least one.
    pub fn len(&self) -> (count: usize)
        ensures
            count == self@.len(),
            count >= 1,
            self@.no_duplicates(),
    {
        proof {
            use_type_invariant(self);
        }
        self.subjects.len()
    }

    /// The subject that came first.
    pub fn first(&self) -> (subject: &String)
        ensures
            self@.len() >= 1,
            subject@ == self@[0],
    {
        proof {
            use_type_invariant(self);
        }
        &self.subjects[0]
    }

    /// The subjects, in the order in which they first came.
    pub fn subjects(&self) -> (subjects: &Vec<String>)
        ensures
            texts(subjects@) == self@,
            subjects@.len() >= 1,
    {
        proof {
            use_type_invariant(self);
        }
        &self.subjects
    }
}

impl Clone for MessageSummary {
    fn clone(&self) -> (copy: MessageSummary)
        ensures
            copy@ == self@,
    {
        proof {
            use_type_invariant(self);
        }
        let mut subjects: Vec<String> = Vec::new();
        let mut i: usize = 0;
        while i < self.subjects.len()
            invariant
                i <= self.subjects@.len(),
                subjects@.len() == i,
                forall|j: int| 0 <= j < i ==> subjects@[j]@ == self.subjects@[j]@,
            decreases self.subjects@.len() - i,
        {
            subjects.push(self.subjects[i].clone());
            i = i + 1;
        }
        assert(texts(subjects@) =~= texts(self.subjects@));
        MessageSummary { subjects }
    }
}

} // verus!
