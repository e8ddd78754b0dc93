//! The decisions of the local callback that receives the authorization
//! code: it takes the code of the first request that carries one, and
//! refuses every request after that. A request without a code is answered
//! with an error and changes nothing. Serving HTTP is left to the caller,
//! which shuts the server down when a request is accepted.
use vstd::prelude::*;
use vstd::string::*;

verus! {

/// How the callback answers one request.
#[derive(Debug, Clone, Copy, PartialEq, Eq, Structural)]
pub enum CallbackReply {
    /// The code was taken; the server should now shut down.
    Accepted,
    /// The request carries no `code` parameter.
    MissingCode,
    /// A code was taken before; this request is refused.
    AlreadyServed,
}

pub struct CallbackListener {
    code: Option<String>,
}

pub open spec fn opt_text(o: Option<String>) -> Option<Seq<char>> {
    match o {
        Some(s) => Some(s@),
        None => None,
    }
}

/// The callback's state (the code taken, if any) and its answer after a
/// request carrying `code`.
pub open spec fn handled(state: Option<Seq<char>>, code: Option<Seq<char>>) -> (Option<Seq<char>>, CallbackReply) {
    if state is Some {
        (state, CallbackReply::AlreadyServed)
    } else if code is None {
        (state, CallbackReply::MissingCode)
    } else {
        (code, CallbackReply::Accepted)
    }
}

/// The state and the answers after a series of requests.
pub open spec fn served(state: Option<Seq<char>>, codes: Seq<Option<Seq<char>>>) -> (Option<Seq<char>>, Seq<CallbackReply>)
    decreases codes.len(),
{
    if codes.len() == 0 {
        (state, Seq::empty())
    } else {
        let (s1, r1) = handled(state, codes[0]);
        let (s2, rs) = served(s1, codes.drop_first());
        (s2, seq![r1] + rs)
    }
}

impl View for CallbackListener {
    type V = Option<Seq<char>>;

    closed spec fn view(&self) -> Option<Seq<char>> {
        opt_text(self.code)
    }
}

impl CallbackListener {
    /// A callback that has taken no code yet.
    pub fn new() -> (r: CallbackListener)
        ensures
            r@ is None,
    {
        CallbackListener { code: None }
    }

    /// Answers a request whose `code` parameter is `code`.
    pub fn handle(&mut self, code: Option<String>) -> (r: CallbackReply)
        ensures
            (final(self)@, r) == handled(old(self)@, opt_text(code)),
    {
        if self.code.is_some() {
            CallbackReply::AlreadyServed
        } else {
            match code {
                None => CallbackReply::MissingCode,
                Some(c) => {
                    self.code = Some(c);
                    CallbackReply::Accepted
                },
            }
        }
    }

    /// Whether a code was taken.
    pub fn has_code(&self) -> (r: bool)
        ensures
            r == self@ is Some,
    {
        self.code.is_some()
    }

    /// The code taken, if any.
    pub fn code(&self) -> (r: Option<String>)
        ensures
            opt_text(r) == self@,
    {
        match &self.code {
            Some(c) => Some(c.clone()),
            None => None,
        }
    }
}

impl CallbackReply {
    /// The body of the answer.
    pub fn body(&self) -> (r: &'static str)
        ensures
            r@ == match self {
                CallbackReply::Accepted => "success!"@,
                CallbackReply::MissingCode => "missing code parameter"@,
                CallbackReply::AlreadyServed => "already authorized"@,
            },
    {
        match self {
            CallbackReply::Accepted => "success!",
            CallbackReply::MissingCode => "missing code parameter",
            CallbackReply::AlreadyServed => "already authorized",
        }
    }
}

/// Once a code is taken, every later request is refused and the code stays.
pub proof fn lemma_taken_code_stays(state: Option<Seq<char>>, codes: Seq<Option<Seq<char>>>)
    requires
        state is Some,
    ensures
        served(state, codes).0 == state,
        served(state, codes).1.len() == codes.len(),
        forall|i: int| 0 <= i < codes.len() ==> #[trigger] served(state, codes).1[i] == CallbackReply::AlreadyServed,
    decreases codes.len(),
{
    if codes.len() > 0 {
        lemma_taken_code_stays(state, codes.drop_first());
        let rs = served(state, codes).1;
        assert forall|i: int| 0 <= i < codes.len() implies #[trigger] rs[i] == CallbackReply::AlreadyServed by {
            if i > 0 {
                assert(rs[i] == served(state, codes.drop_first()).1[i - 1]);
            }
        }
    }
}

proof fn lemma_served_len(state: Option<Seq<char>>, codes: Seq<Option<Seq<char>>>)
    ensures
        served(state, codes).1.len() == codes.len(),
    decreases codes.len(),
{
    if codes.len() > 0 {
        lemma_served_len(handled(state, codes[0]).0, codes.drop_first());
    }
}

/// The callback accepts at most one request: after the first accepted
/// request every later one is refused, and the code taken is that request's.
pub proof fn lemma_accepts_once(state: Option<Seq<char>>, codes: Seq<Option<Seq<char>>>, i: int, j: int)
    requires
        0 <= i < j < codes.len(),
        served(state, codes).1[i] == CallbackReply::Accepted,
    ensures
        served(state, codes).1[j] == CallbackReply::AlreadyServed,
        served(state, codes).0 == codes[i],
    decreases codes.len(),
{
    let (s1, r1) = handled(state, codes[0]);
    let rest = codes.drop_first();
    lemma_served_len(s1, rest);
    if i == 0 {
        lemma_taken_code_stays(s1, rest);
        assert(served(state, codes).1[j] == served(s1, rest).1[j - 1]);
    } else {
        assert(served(state, codes).1[i] == served(s1, rest).1[i - 1]);
        lemma_accepts_once(s1, rest, i - 1, j - 1);
        assert(served(state, codes).1[j] == served(s1, rest).1[j - 1]);
    }
}

} // verus!
