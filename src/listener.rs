//! Best-effort startup of the listeners: the configured transports are tried
//! in a fixed order, a transport whose binding or registration fails is left
//! out, and the server runs only if at least one transport was registered.
use vstd::prelude::*;

verus! {

/// The idle timeout, in seconds, of every stream-oriented transport.
pub const DEFAULT_DNS_SERVER_TIMEOUT_SECS: u64 = 5;

/// One of the five transports.
#[derive(Clone, Copy, Debug, PartialEq, Eq, Structural)]
pub enum TransportKind {
    Udp,
    Tcp,
    Dot,
    Doh,
    Doh3,
}

/// The configured transports, in the order they are started: UDP, TCP,
/// DNS-over-TLS, DNS-over-HTTPS, DNS-over-HTTP/3.
pub open spec fn configured(udp: bool, tcp: bool, dot: bool, doh: bool, doh3: bool) -> Seq<
    TransportKind,
> {
    (if udp { seq![TransportKind::Udp] } else { seq![] }) + (if tcp {
        seq![TransportKind::Tcp]
    } else {
        seq![]
    }) + (if dot { seq![TransportKind::Dot] } else { seq![] }) + (if doh {
        seq![TransportKind::Doh]
    } else {
        seq![]
    }) + (if doh3 { seq![TransportKind::Doh3] } else { seq![] })
}

/// The transports registered, in order, given each one tried and whether
/// binding and registering it succeeded.
pub open spec fn registered(outcomes: Seq<(TransportKind, bool)>) -> Seq<TransportKind>
    decreases outcomes.len(),
{
    if outcomes.len() == 0 {
        seq![]
    } else {
        let rest = registered(outcomes.drop_last());
        if outcomes.last().1 {
            rest.push(outcomes.last().0)
        } else {
            rest
        }
    }
}

/// The transports to start, in order, from which of them are configured.
pub fn configured_transports(udp: bool, tcp: bool, dot: bool, doh: bool, doh3: bool) -> (r: Vec<
    TransportKind,
>)
    ensures
        r@ == configured(udp, tcp, dot, doh, doh3),
{
    let mut r: Vec<TransportKind> = Vec::new();
    if udp {
        r.push(TransportKind::Udp);
    }
    if tcp {
        r.push(TransportKind::Tcp);
    }
    if dot {
        r.push(TransportKind::Dot);
    }
    if doh {
        r.push(TransportKind::Doh);
    }
    if doh3 {
        r.push(TransportKind::Doh3);
    }
    proof {
        assert(r@ =~= configured(udp, tcp, dot, doh, doh3));
    }
    r
}

/// The transports that were registered, in order.
pub fn registered_transports(outcomes: &Vec<(TransportKind, bool)>) -> (r: Vec<TransportKind>)
    ensures
        r@ == registered(outcomes@),
{
    let mut r: Vec<TransportKind> = Vec::new();
    let mut i: usize = 0;
    while i < outcomes.len()
        invariant
            i <= outcomes@.len(),
            r@ == registered(outcomes@.subrange(0, i as int)),
        decreases outcomes@.len() - i,
    {
        let (kind, ok) = outcomes[i];
        proof {
            assert(outcomes@.subrange(0, i + 1).drop_last() =~= outcomes@.subrange(0, i as int));
        }
        if ok {
            r.push(kind);
        }
        i = i + 1;
    }
    proof {
        assert(outcomes@.subrange(0, outcomes@.len() as int) =~= outcomes@);
    }
    r
}

/// Whether the server runs: at least one transport was registered.
pub fn has_server(outcomes: &Vec<(TransportKind, bool)>) -> (r: bool)
    ensures
        r == (registered(outcomes@).len() > 0),
{
    let regs = registered_transports(outcomes);
    regs.len() > 0
}

/// With no transport configured nothing is started, and so nothing is
/// registered: there is no server.
pub proof fn law_nothing_configured_no_server()
    ensures
        configured(false, false, false, false, false).len() == 0,
        registered(seq![]).len() == 0,
{
    assert(configured(false, false, false, false, false) =~= seq![]);
}

/// Startup is best-effort: a transport is registered exactly when one of its
/// attempts succeeded, whatever became of the others.
pub proof fn law_registration_is_independent(outcomes: Seq<(TransportKind, bool)>, t: TransportKind)
    ensures
        registered(outcomes).contains(t) <==> exists|i: int|
            0 <= i < outcomes.len() && #[trigger] outcomes[i] == (t, true),
    decreases outcomes.len(),
{
    if outcomes.len() > 0 {
        let rest = outcomes.drop_last();
        law_registration_is_independent(rest, t);
        if registered(outcomes).contains(t) {
            if !registered(rest).contains(t) {
                assert(outcomes[outcomes.len() - 1] == (t, true));
            }
        }
        if exists|i: int| 0 <= i < outcomes.len() && #[trigger] outcomes[i] == (t, true) {
            let i = choose|i: int| 0 <= i < outcomes.len() && #[trigger] outcomes[i] == (t, true);
            if i < outcomes.len() - 1 {
                assert(rest[i] == outcomes[i]);
            } else {
                assert(registered(outcomes) == registered(rest).push(t));
                assert(registered(outcomes)[registered(rest).len() as int] == t);
            }
        }
        if exists|i: int| 0 <= i < rest.len() && #[trigger] rest[i] == (t, true) {
            let i = choose|i: int| 0 <= i < rest.len() && #[trigger] rest[i] == (t, true);
            assert(outcomes[i] == rest[i]);
        }
        if registered(rest).contains(t) {
            let j = choose|j: int| 0 <= j < registered(rest).len() && registered(rest)[j] == t;
            if outcomes.last().1 {
                assert(registered(outcomes)[j] == t);
            }
        }
    }
}

} // verus!
