//! The middleware composition model and the built-in filters.
//!
//! A middleware wraps the handler: its pre-work runs on the way in, its
//! post-work on the way out, and it may short-circuit. The chain is built
//! right-to-left so that the first middleware configured is the outermost.
//! The asynchronous callables themselves live with the glue; what is
//! verified here is the call order a chain produces, and the decisions the
//! built-in filters take on a session.

use vstd::prelude::*;

use crate::session::Session;

verus! {

/// One observable step of a chain invocation, with middlewares named by
/// their position-independent label.
#[derive(Debug, Clone, Copy, PartialEq, Eq, Structural)]
pub enum ChainStep {
    /// A middleware's pre-work, before it hands the session on.
    Pre(u64),
    /// The terminal handler.
    Handler,
    /// A middleware's post-work, after the rest of the chain returned.
    Post(u64),
}

/// The call order of the chain `layers` around a handler: the first
/// layer's pre-work is outermost and its post-work last.
pub open spec fn spec_chain_trace(layers: Seq<u64>) -> Seq<ChainStep>
    decreases layers.len(),
{
    if layers.len() == 0 {
        seq![ChainStep::Handler]
    } else {
        seq![ChainStep::Pre(layers[0])] + spec_chain_trace(layers.drop_first()) + seq![
            ChainStep::Post(layers[0]),
        ]
    }
}

/// The call order of the chain `layers`, from the first middleware's
/// pre-work to its post-work.
pub fn chain_trace(layers: &Vec<u64>) -> (r: Vec<ChainStep>)
    ensures
        r@ == spec_chain_trace(layers.deep_view()),
{
    let n = layers.len();
    let mut trace: Vec<ChainStep> = Vec::new();
    for i in 0..n
        invariant
            n == layers@.len(),
            trace@ =~= Seq::new(i as nat, |k: int| ChainStep::Pre(layers@[k])),
    {
        trace.push(ChainStep::Pre(layers[i]));
    }
    trace.push(ChainStep::Handler);
    let mut j: usize = n;
    while j > 0
        invariant
            0 <= j <= n,
            n == layers@.len(),
            trace@ =~= Seq::new(n as nat, |k: int| ChainStep::Pre(layers@[k])) + seq![
                ChainStep::Handler,
            ] + Seq::new((n - j) as nat, |k: int| ChainStep::Post(layers@[n - 1 - k])),
        decreases j,
    {
        j -= 1;
        trace.push(ChainStep::Post(layers[j]));
    }
    proof {
        lemma_chain_trace_shape(layers.deep_view());
        assert(trace@ =~= spec_chain_trace(layers.deep_view()));
    }
    trace
}

/// The trace of a chain is its layers' pre-work outside-in, the handler,
/// then the post-work inside-out: pre-work for an earlier layer happens
/// before pre-work for a later one, and post-work reverses that order.
pub proof fn lemma_chain_trace_shape(layers: Seq<u64>)
    ensures
        spec_chain_trace(layers) =~= Seq::new(layers.len(), |k: int| ChainStep::Pre(layers[k]))
            + seq![ChainStep::Handler] + Seq::new(
            layers.len(),
            |k: int| ChainStep::Post(layers[layers.len() - 1 - k]),
        ),
    decreases layers.len(),
{
    if layers.len() == 0 {
    } else {
        let tail = layers.drop_first();
        lemma_chain_trace_shape(tail);
        let pres_t = Seq::new(tail.len(), |k: int| ChainStep::Pre(tail[k]));
        let posts_t = Seq::new(tail.len(), |k: int| ChainStep::Post(tail[tail.len() - 1 - k]));
        let pres = Seq::new(layers.len(), |k: int| ChainStep::Pre(layers[k]));
        let posts = Seq::new(layers.len(), |k: int| ChainStep::Post(layers[layers.len() - 1 - k]));
        assert(spec_chain_trace(tail) == pres_t + seq![ChainStep::Handler] + posts_t);
        assert(pres =~= seq![ChainStep::Pre(layers[0])] + pres_t);
        assert(posts =~= posts_t + seq![ChainStep::Post(layers[0])]);
        assert(spec_chain_trace(layers) == seq![ChainStep::Pre(layers[0])] + spec_chain_trace(tail)
            + seq![ChainStep::Post(layers[0])]);
        assert(seq![ChainStep::Pre(layers[0])] + (pres_t + seq![ChainStep::Handler] + posts_t)
            + seq![ChainStep::Post(layers[0])] =~= pres + seq![ChainStep::Handler] + posts);
    }
}

/// For a chain of two middlewares around a handler, the observed order is
/// the first's pre-work, the second's, the handler, then the post-work in
/// the reverse order.
pub proof fn lemma_two_layer_order(a: u64, b: u64)
    ensures
        spec_chain_trace(seq![a, b]) =~= seq![
            ChainStep::Pre(a),
            ChainStep::Pre(b),
            ChainStep::Handler,
            ChainStep::Post(b),
            ChainStep::Post(a),
        ],
{
    let l2 = seq![a, b];
    let l1 = l2.drop_first();
    let l0 = l1.drop_first();
    assert(l1 =~= seq![b]);
    assert(l0 =~= Seq::<u64>::empty());
    assert(spec_chain_trace(l0) == seq![ChainStep::Handler]);
    assert(spec_chain_trace(l1) == seq![ChainStep::Pre(b)] + spec_chain_trace(l0) + seq![
        ChainStep::Post(b),
    ]);
    assert(spec_chain_trace(l2) == seq![ChainStep::Pre(a)] + spec_chain_trace(l1) + seq![
        ChainStep::Post(a),
    ]);
    assert(spec_chain_trace(l2) =~= seq![
        ChainStep::Pre(a),
        ChainStep::Pre(b),
        ChainStep::Handler,
        ChainStep::Post(b),
        ChainStep::Post(a),
    ]);
}

/// An access filter over the command of an exec session: only commands
/// whose first word is in the allow list may run.
#[derive(Debug, PartialEq, Eq)]
pub struct AccessControl {
    allowed: Vec<String>,
}

impl View for AccessControl {
    type V = Seq<Seq<char>>;

    closed spec fn view(&self) -> Seq<Seq<char>> {
        self.allowed.deep_view()
    }
}

impl Clone for AccessControl {
    fn clone(&self) -> (r: Self)
        ensures
            r@ == self@,
    {
        let n = self.allowed.len();
        let mut allowed: Vec<String> = Vec::new();
        for i in 0..n
            invariant
                n == self.allowed@.len(),
                allowed.deep_view() =~= self@.take(i as int),
        {
            proof {
                assert(self@[i as int] == self.allowed@[i as int]@);
            }
            let ghost before: Seq<Seq<char>> = allowed.deep_view();
            allowed.push(self.allowed[i].clone());
            proof {
                assert(allowed.deep_view() =~= before.push(self@[i as int]));
                assert(allowed.deep_view() =~= self@.take(i + 1));
            }
        }
        proof {
            assert(allowed.deep_view() =~= self@);
        }
        AccessControl { allowed }
    }
}

impl AccessControl {
    /// A filter allowing exactly the given command words.
    pub fn new(allowed: Vec<String>) -> (r: AccessControl)
        ensures
            r@ == allowed.deep_view(),
    {
        AccessControl { allowed }
    }

    /// True when `cmd` is one of the allowed command words.
    pub fn is_allowed(&self, cmd: &String) -> (r: bool)
        ensures
            r == self@.contains(cmd@),
    {
        let n = self.allowed.len();
        for i in 0..n
            invariant
                n == self@.len(),
                forall|k: int| 0 <= k < i ==> self@[k] != cmd@,
        {
            proof {
                assert(self@[i as int] == self.allowed@[i as int]@);
            }
            if self.allowed[i] == *cmd {
                return true;
            }
        }
        false
    }

    /// The filter's decision on a session: pass it on, or — for an exec
    /// session whose command's first word is not allowed — stop it with
    /// the returned standard-error message and exit code 1.
    pub fn decide(&self, session: &Session) -> (r: Option<String>)
        ensures
            match session.spec_kind() {
                crate::kind::SessionKind::Exec { command } => exists|w: Seq<char>|
                    {
                        &&& #[trigger] crate::text::is_first_word(command@, w)
                        &&& (self@.contains(w) <==> r is None)
                        &&& (r matches Some(m) ==> m@ == "Command not allowed: "@ + w + "\n"@)
                    },
                _ => r is None,
            },
    {
        let cmd = match session.command() {
            Some(c) => c,
            None => {
                return None;
            },
        };
        let word = crate::text::first_word(cmd).to_owned();
        if self.is_allowed(&word) {
            None
        } else {
            let msg = String::from_str("Command not allowed: ").concat(word.as_str()).concat(
                "\n",
            );
            Some(msg)
        }
    }
}

/// A message at the end of a session: the text is written to the peer
/// after the rest of the chain has returned.
#[derive(Debug, PartialEq, Eq)]
pub struct Comment(pub String);

impl Clone for Comment {
    fn clone(&self) -> (r: Self)
        ensures
            r == *self,
    {
        Comment(self.0.clone())
    }
}

/// The guard that admits only sessions with an allocated pseudo-terminal:
/// pass, or stop the session at once with the returned standard-error
/// message and exit code 1.
pub fn active_term_decision(session: &Session) -> (r: Option<String>)
    ensures
        session.spec_kind() is Pty <==> r is None,
        r matches Some(m) ==> m@ == "PTY required\n"@,
{
    match session.pty() {
        Some(_) => None,
        None => Some(String::from_str("PTY required\n")),
    }
}

} // verus!
