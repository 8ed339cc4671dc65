//! Chains of underlying failures, kept for the logging path only.

use vstd::prelude::*;

verus! {

/// One link in a chain of underlying failures: a human-readable description
/// and, optionally, the next (inner) failure. The chain is walked
/// outermost-to-innermost by the recovery boundary's logging step and is
/// never shown to the client.
#[derive(Debug)]
pub struct Cause {
    description: String,
    next: Option<Box<Cause>>,
}

impl Clone for Cause {
    fn clone(&self) -> (c: Self)
        ensures
            c@ == self@,
        decreases *self,
    {
        let c = Cause {
            description: self.description.clone(),
            next: match &self.next {
                Some(inner) => Some(Box::new((**inner).clone())),
                None => None,
            },
        };
        proof {
            assert(c@ =~= self@);
        }
        c
    }
}

/// The descriptions of a chain, outermost first. Always non-empty.
spec fn chain_of(c: Cause) -> Seq<Seq<char>>
    decreases c,
{
    seq![c.description@] + match c.next {
        Some(inner) => chain_of(*inner),
        None => Seq::<Seq<char>>::empty(),
    }
}

impl View for Cause {
    type V = Seq<Seq<char>>;

    closed spec fn view(&self) -> Seq<Seq<char>> {
        chain_of(*self)
    }
}

impl Cause {
    /// A chain of one link.
    pub fn new(description: String) -> (c: Cause)
        ensures
            c@ == seq![description@],
    {
        let c = Cause { description, next: None };
        proof {
            assert(c@ =~= seq![c.description@]);
        }
        c
    }

    /// A link wrapping an existing (inner) chain.
    pub fn wrap(description: String, inner: Cause) -> (c: Cause)
        ensures
            c@ == seq![description@] + inner@,
    {
        Cause { description, next: Some(Box::new(inner)) }
    }

    /// The description of the outermost link.
    pub fn description(&self) -> (r: &str)
        ensures
            self@.len() >= 1,
            r@ == self@[0],
    {
        self.description.as_str()
    }

    /// The next (inner) link, if any.
    pub fn next(&self) -> (r: Option<&Cause>)
        ensures
            self@.len() >= 1,
            r matches Some(inner) ==> inner@ == self@.skip(1) && self@.len() > 1,
            r is None ==> self@.len() == 1,
    {
        match &self.next {
            Some(inner) => {
                proof {
                    assert(inner@ =~= self@.skip(1));
                }
                Some(&**inner)
            },
            None => {
                proof {
                    assert(self@ =~= seq![self.description@]);
                }
                None
            },
        }
    }
}

/// Conversion of a failure value into a [`Cause`] chain.
///
/// `cause_view` says, at the specification level, which chain of
/// descriptions the value becomes; `into_cause` is proved to produce
/// exactly that chain, so nothing of the original failure is lost.
pub trait IntoCause: Sized {
    spec fn cause_view(self) -> Seq<Seq<char>>;

    fn into_cause(self) -> (c: Cause)
        ensures
            c@ == self.cause_view(),
    ;
}

impl IntoCause for Cause {
    open spec fn cause_view(self) -> Seq<Seq<char>> {
        self@
    }

    fn into_cause(self) -> (c: Cause) {
        self
    }
}

impl IntoCause for String {
    open spec fn cause_view(self) -> Seq<Seq<char>> {
        seq![self@]
    }

    fn into_cause(self) -> (c: Cause) {
        Cause::new(self)
    }
}

impl IntoCause for &str {
    open spec fn cause_view(self) -> Seq<Seq<char>> {
        seq![self@]
    }

    fn into_cause(self) -> (c: Cause) {
        Cause::new(self.to_owned())
    }
}

} // verus!
