//! The topics that a session subscribes to.
use vstd::prelude::*;
use crate::bounded::{empty_topic_list, push_topic_name, topic_name_slice, topic_names};
use crate::limits::TOPIC_CAPACITY;

verus! {

/// A list was full when a topic was to be added; the topic is handed back.
#[derive(Debug, Clone, Copy, PartialEq, Eq)]
pub struct TopicSetFull {
    pub rejected: &'static str,
}

/// A list of topic names with room for five, in the order in which they were
/// added.
#[derive(Debug, PartialEq, Eq)]
pub struct TopicSet {
    names: heapless::Vec<&'static str, 5>,
}

impl View for TopicSet {
    type V = Seq<Seq<char>>;

    closed spec fn view(&self) -> Seq<Seq<char>> {
        topic_names(self.names)
    }
}

impl TopicSet {
    #[verifier::type_invariant]
    spec fn within_capacity(self) -> bool {
        topic_names(self.names).len() <= TOPIC_CAPACITY
    }

    /// A set without topics.
    pub fn new() -> (set: TopicSet)
        ensures
            set@ == Seq::<Seq<char>>::empty(),
    {
        TopicSet { names: empty_topic_list() }
    }

    /// Adds `name` behind the topics that the set holds. A set of five topics
    /// takes no more: it stays as it is and the name comes back in the error.
    pub fn add(&mut self, name: &'static str) -> (added: Result<(), TopicSetFull>)
        ensures
            final(self)@.len() <= TOPIC_CAPACITY,
            old(self)@.len() < TOPIC_CAPACITY ==> added is Ok && final(self)@ == old(self)@.push(
                name@,
            ),
            old(self)@.len() >= TOPIC_CAPACITY ==> final(self)@ == old(self)@ && (added matches Err(
                full,
            ) && full.rejected@ == name@),
    {
        proof {
            use_type_invariant(&*self);
        }
        match push_topic_name(&mut self.names, name) {
            Ok(()) => Ok(()),
            Err(back) => Err(TopicSetFull { rejected: back }),
        }
    }

    /// Number of topics in the set.
    pub fn len(&self) -> (n: usize)
        ensures
            n == self@.len(),
            n <= TOPIC_CAPACITY,
    {
        proof {
            use_type_invariant(self);
        }
        topic_name_slice(&self.names).len()
    }

    /// Whether the set holds no topic.
    pub fn is_empty(&self) -> (empty: bool)
        ensures
            empty == (self@.len() == 0),
    {
        self.len() == 0
    }

    /// The topic at position `index`, counted from zero, if there is one.
    pub fn get(&self, index: usize) -> (name: Option<&'static str>)
        ensures
            index < self@.len() ==> (name matches Some(found) && found@ == self@[index as int]),
            index >= self@.len() ==> name is None,
    {
        let names = topic_name_slice(&self.names);
        if index < names.len() {
            Some(names[index])
        } else {
            None
        }
    }

    /// The list itself, for a client that subscribes to all of it at once.
    pub fn as_list(&self) -> (list: &heapless::Vec<&'static str, 5>)
        ensures
            topic_names(*list) == self@,
    {
        &self.names
    }
}

} // verus!
