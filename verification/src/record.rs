use vstd::prelude::*;

verus! {

/// The validated in-memory result of a successful load: an ordered sequence
/// of text values, duplicates permitted, owned exclusively by the caller.
#[derive(Debug)]
pub struct StructuredRecord {
    sentences: Vec<String>,
}

impl View for StructuredRecord {
    type V = Seq<Seq<char>>;

    closed spec fn view(&self) -> Seq<Seq<char>> {
        self.sentences.deep_view()
    }
}

impl StructuredRecord {
    /// Builds a record that holds exactly the given sentences, in order.
    pub fn new(sentences: Vec<String>) -> (r: StructuredRecord)
        ensures
            r@ == sentences.deep_view(),
    {
        StructuredRecord { sentences }
    }

    /// The sentences of the record, in the order the document gave them.
    pub fn sentences(&self) -> (r: &Vec<String>)
        ensures
            r.deep_view() == self@,
    {
        &self.sentences
    }

    /// How many sentences the record holds.
    pub fn len(&self) -> (n: usize)
        ensures
            n == self@.len(),
    {
        self.sentences.len()
    }

    /// The sentence at position `i`, if the record has one there.
    pub fn get(&self, i: usize) -> (r: Option<&String>)
        ensures
            i < self@.len() ==> (r matches Some(s) && s@ == self@[i as int]),
            i >= self@.len() ==> r is None,
    {
        if i < self.sentences.len() {
            Some(&self.sentences[i])
        } else {
            None
        }
    }

    /// Gives the sentences up to the caller, in order.
    pub fn into_sentences(self) -> (r: Vec<String>)
        ensures
            r.deep_view() == self@,
    {
        self.sentences
    }
}

} // verus!
