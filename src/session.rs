use vstd::prelude::*;
use crate::message::{classify, incoming_of, rewritten, tool_call_method, tool_call_of, CallV, Incoming, IncomingV};
use crate::reply::{error_line, generic_error, reply_of, success_line, OutcomeV};

verus! {

/// What the server does with one raw input line: the record appended to the
/// transcript log, and what the line asks for.
pub struct LineStep {
    pub record: String,
    pub incoming: Incoming,
}

/// What one raw input line asks for; a blank line asks for nothing.
pub open spec fn line_request(line: Seq<char>) -> IncomingV {
    if line.len() == 0 {
        IncomingV::Dropped
    } else {
        incoming_of(line)
    }
}

/// Takes one raw input line: it is recorded verbatim, once, whatever follows,
/// and then classified.
pub fn on_line(line: &str) -> (r: LineStep)
    ensures
        r.record@ == line@,
        r.incoming@ == line_request(line@),
{
    let record = line.to_owned();
    let incoming = if line.is_empty() {
        Incoming::Dropped
    } else {
        classify(line)
    };
    LineStep { record, incoming }
}

/// The response lines, in order, to a sequence of answered calls, each given
/// by its `id` and outcome.
pub open spec fn replies(calls: Seq<(Seq<char>, OutcomeV)>) -> Seq<Seq<char>>
    decreases calls.len(),
{
    if calls.len() == 0 {
        Seq::empty()
    } else {
        let rest = replies(calls.drop_last());
        match reply_of(calls.last().0, calls.last().1) {
            Some(l) => rest.push(l),
            None => rest,
        }
    }
}

/// Responses come out in the order in which the calls were read: the
/// responses to one stream followed by another are those of the first,
/// then those of the second.
pub proof fn lemma_replies_in_order(a: Seq<(Seq<char>, OutcomeV)>, b: Seq<(Seq<char>, OutcomeV)>)
    ensures
        replies(a + b) == replies(a) + replies(b),
    decreases b.len(),
{
    if b.len() == 0 {
        assert(a + b =~= a);
        assert(replies(b) =~= Seq::empty());
        assert(replies(a) + replies(b) =~= replies(a));
    } else {
        assert((a + b).drop_last() =~= a + b.drop_last());
        assert((a + b).last() == b.last());
        lemma_replies_in_order(a, b.drop_last());
        match reply_of(b.last().0, b.last().1) {
            Some(l) => {
                assert(replies(a) + replies(b) =~= (replies(a) + replies(b.drop_last())).push(l));
            },
            None => {},
        }
    }
}

/// The start of every response line: the envelope up to and including the `id`.
pub open spec fn id_prefix(id: Seq<char>) -> Seq<char> {
    "{\"jsonrpc\":\"2.0\",\"id\":"@ + id
}

/// A request with an unknown method is answered by an error response that
/// carries its `id`, never by a success response.
pub proof fn lemma_unknown_method_is_error(id: Seq<char>, description: Seq<char>, v: Seq<char>)
    ensures
        reply_of(id, OutcomeV::RouterError(description)) == Some(error_line(id, generic_error(description))),
        error_line(id, generic_error(description)) != success_line(id, v),
        id_prefix(id).is_prefix_of(error_line(id, generic_error(description))),
{
    reveal_strlit("{\"jsonrpc\":\"2.0\",\"id\":");
    reveal_strlit(",\"result\":");
    reveal_strlit(",\"error\":");
    let p = "{\"jsonrpc\":\"2.0\",\"id\":"@;
    let e = error_line(id, generic_error(description));
    let s = success_line(id, v);
    let k = p.len() + id.len() + 2;
    assert(e[k as int] == 'e');
    assert(s[k as int] == 'r');
    assert(e.subrange(0, id_prefix(id).len() as int) =~= id_prefix(id));
}

/// A tool call naming tool `x` with arguments `a` is handled exactly as a
/// request for method `x` with parameters `a` under the same `id`, unless
/// `x` is itself the tool-call method (rewriting happens once).
pub proof fn lemma_tool_call_is_direct_call(c: CallV, x: Seq<char>, a: Option<Seq<char>>)
    requires
        c.method == tool_call_method(),
        tool_call_of(c.params) == Some((x, a)),
        x != tool_call_method(),
    ensures
        rewritten(c) == rewritten(CallV { id: c.id, method: x, params: a }),
        rewritten(c) == IncomingV::Call(CallV { id: c.id, method: x, params: a }),
{
}

/// The same request sent under two `id`s is handled alike, each under its
/// own `id`.
pub open spec fn with_id(i: IncomingV, id: Seq<char>) -> IncomingV {
    match i {
        IncomingV::Call(c) => IncomingV::Call(CallV { id, method: c.method, params: c.params }),
        IncomingV::Rejected { id: _, description } => IncomingV::Rejected { id, description },
        other => other,
    }
}

/// Re-sending a request under another `id` changes nothing but the `id`
/// of what is dispatched, and each answer carries only its own `id`.
pub proof fn lemma_ids_do_not_mix(c: CallV, id2: Seq<char>, o: OutcomeV)
    ensures
        rewritten(CallV { id: id2, method: c.method, params: c.params }) == with_id(rewritten(c), id2),
        with_id(rewritten(c), c.id) == rewritten(c),
        reply_of(c.id, o) is Some <==> reply_of(id2, o) is Some,
        reply_of(c.id, o) is Some ==> id_prefix(c.id).is_prefix_of(reply_of(c.id, o)->0),
        reply_of(id2, o) is Some ==> id_prefix(id2).is_prefix_of(reply_of(id2, o)->0),
{
    lemma_reply_starts_with_id(c.id, o);
    lemma_reply_starts_with_id(id2, o);
}

proof fn lemma_reply_starts_with_id(id: Seq<char>, o: OutcomeV)
    ensures
        reply_of(id, o) is Some ==> id_prefix(id).is_prefix_of(reply_of(id, o)->0),
{
    if reply_of(id, o) is Some {
        let l = reply_of(id, o)->0;
        assert(l.subrange(0, id_prefix(id).len() as int) =~= id_prefix(id));
    }
}

} // verus!
