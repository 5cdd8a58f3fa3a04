use vstd::prelude::*;

verus! {

/// A question as submitted, before it has an identifier.
#[derive(Debug, Clone, PartialEq)]
pub struct NewQuestion {
    pub title: String,
    pub content: String,
    pub tags: Option<Vec<String>>,
}

/// A stored question.
#[derive(Debug, Clone, PartialEq)]
pub struct Question {
    pub id: QuestionId,
    pub title: String,
    pub content: String,
    pub tags: Option<Vec<String>>,
}

#[derive(Debug, Clone, Copy, PartialEq, Eq, Hash)]
pub struct QuestionId(pub i32);

/// The identifier that persistence gives an account.
#[derive(Debug, Clone, Copy, PartialEq, Eq, Hash)]
pub struct AccountId(pub i32);

/// An account: before registration `password` holds the clear text, once
/// registered it holds the salted hash.
#[derive(Debug, Clone, PartialEq)]
pub struct Account {
    pub id: Option<AccountId>,
    pub email: String,
    pub password: String,
}

} // verus!
