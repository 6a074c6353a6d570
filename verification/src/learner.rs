//! The per-transaction observer: a correlation state machine that combines
//! the request-phase and response-phase observations of one HTTP transaction
//! into a single dependency-edge fact, emitted at most once.

use vstd::prelude::*;
use crate::config::DependencyLearnerConfig;
use crate::text::{edge_text, render_edge, string_from_utf8, utf8_decode};

verus! {

/// The abstract observation state of one transaction: what has been captured
/// so far, whether the edge has already been emitted, and the configured
/// publication header.
#[verifier::ext_equal]
pub struct LearnerView {
    pub notified: bool,
    pub authority: Option<Seq<char>>,
    pub path: Option<Seq<char>>,
    pub upstream_cluster: Option<Seq<char>>,
    pub downstream_peer_certificate: Option<Seq<char>>,
    pub response_header: Option<Seq<char>>,
}

/// One response-phase event as delivered by the host: whether this is the
/// final frame of the response header block, and the raw values of the three
/// connection/routing properties (absent when the host has none).
pub struct ResponseEvent {
    pub end_of_stream: bool,
    pub mtls: Option<Seq<u8>>,
    pub peer_certificate: Option<Seq<u8>>,
    pub cluster_name: Option<Seq<u8>>,
}

/// The abstract emission directive: the edge fact, and the header under which
/// to publish it (absent: compute and log only).
#[verifier::ext_equal]
pub struct EmissionView {
    pub response_header: Option<Seq<char>>,
    pub edge: Seq<char>,
}

/// The abstract outcome of one response-phase event: which diagnostic
/// warnings to log, and whether (and what) to emit.
#[verifier::ext_equal]
pub struct OutcomeView {
    pub mtls_warning: bool,
    pub downstream_decode_warning: bool,
    pub upstream_decode_warning: bool,
    pub emission: Option<EmissionView>,
}

/// The byte sequences behind an optional raw property value.
pub open spec fn raw_view(o: Option<Vec<u8>>) -> Option<Seq<u8>> {
    match o {
        Some(v) => Some(v@),
        None => None,
    }
}

/// Whether a raw `connection.mtls` property value says the downstream
/// connection is mutually authenticated: exactly one byte, and positive.
pub open spec fn mtls_established(raw: Option<Seq<u8>>) -> bool {
    match raw {
        Some(b) => b.len() == 1 && b[0] > 0,
        None => false,
    }
}

/// How a captured identity absorbs a raw property value: text that decodes
/// replaces the previous capture; an absent or undecodable value leaves the
/// previous capture in place (first resolution wins, degradation is never an
/// error).
pub open spec fn absorbed_identity(prev: Option<Seq<char>>, raw: Option<Seq<u8>>) -> Option<
    Seq<char>,
> {
    match raw {
        Some(b) => match utf8_decode(b) {
            Some(t) => Some(t),
            None => prev,
        },
        None => prev,
    }
}

/// Whether a raw property value is present but not decodable as text — the
/// condition that earns a diagnostic warning.
pub open spec fn decode_failed(raw: Option<Seq<u8>>) -> bool {
    match raw {
        Some(b) => utf8_decode(b) is None,
        None => false,
    }
}

/// The request-phase transition: nothing happens until the final frame of
/// the request header block; at the final frame each present header value is
/// captured, and an absent one leaves the previous capture in place.
pub open spec fn request_step(
    s: LearnerView,
    end_of_stream: bool,
    authority: Option<Seq<char>>,
    path: Option<Seq<char>>,
) -> LearnerView {
    if !end_of_stream {
        s
    } else {
        LearnerView {
            authority: if authority is Some {
                authority
            } else {
                s.authority
            },
            path: if path is Some {
                path
            } else {
                s.path
            },
            ..s
        }
    }
}

/// The no-op outcome: no warnings, no emission.
pub open spec fn quiet_outcome() -> OutcomeView {
    OutcomeView {
        mtls_warning: false,
        downstream_decode_warning: false,
        upstream_decode_warning: false,
        emission: None,
    }
}

/// The response-phase transition. After emission the state is terminal and
/// every further event is a no-op. Otherwise the two identities absorb the
/// raw property values, and the edge is emitted now if the upstream identity
/// is resolved, or unconditionally at the final frame of the response header
/// block — whatever is known is published rather than silently dropped.
pub open spec fn response_step(s: LearnerView, ev: ResponseEvent) -> (LearnerView, OutcomeView) {
    if s.notified {
        (s, quiet_outcome())
    } else {
        let downstream = absorbed_identity(s.downstream_peer_certificate, ev.peer_certificate);
        let upstream = absorbed_identity(s.upstream_cluster, ev.cluster_name);
        let emit = upstream is Some || ev.end_of_stream;
        (
            LearnerView {
                notified: emit,
                downstream_peer_certificate: downstream,
                upstream_cluster: upstream,
                ..s
            },
            OutcomeView {
                mtls_warning: !mtls_established(ev.mtls),
                downstream_decode_warning: decode_failed(ev.peer_certificate),
                upstream_decode_warning: decode_failed(ev.cluster_name),
                emission: if emit {
                    Some(
                        EmissionView {
                            response_header: s.response_header,
                            edge: edge_text(downstream, upstream),
                        },
                    )
                } else {
                    None
                },
            },
        )
    }
}

/// The observation state left behind by a sequence of response-phase events.
pub open spec fn run_state(s: LearnerView, evs: Seq<ResponseEvent>) -> LearnerView
    decreases evs.len(),
{
    if evs.len() == 0 {
        s
    } else {
        run_state(response_step(s, evs[0]).0, evs.drop_first())
    }
}

/// How many edges a sequence of response-phase events emits from a state.
pub open spec fn run_emissions(s: LearnerView, evs: Seq<ResponseEvent>) -> nat
    decreases evs.len(),
{
    if evs.len() == 0 {
        0
    } else {
        (if response_step(s, evs[0]).1.emission is Some {
            1nat
        } else {
            0nat
        }) + run_emissions(response_step(s, evs[0]).0, evs.drop_first())
    }
}

/// Notified is the terminal state: once the edge has been emitted, every
/// further response-phase event leaves the observation state unchanged and
/// emits nothing.
pub proof fn lemma_notified_is_terminal(s: LearnerView, ev: ResponseEvent)
    requires
        s.notified,
    ensures
        response_step(s, ev).0 == s,
        response_step(s, ev).1.emission is None,
{
}

/// One response-phase event emits an edge exactly when it moves the machine
/// from un-notified to notified.
pub proof fn lemma_emission_marks_notification(s: LearnerView, ev: ResponseEvent)
    ensures
        response_step(s, ev).1.emission is Some <==> (!s.notified && response_step(
            s,
            ev,
        ).0.notified),
{
}

/// A published edge always carries the header name that the configuration
/// installed: whenever a response-phase event emits, the emission's
/// publication header is exactly the one the observer was created with.
pub proof fn lemma_configured_header_is_used(s: LearnerView, ev: ResponseEvent)
    ensures
        response_step(s, ev).1.emission matches Some(e) ==> e.response_header
            == s.response_header,
        response_step(s, ev).0.response_header == s.response_header,
{
}

/// A present but undecodable peer-certificate value never fails the
/// transaction: it earns exactly a diagnostic warning and leaves the
/// downstream identity as it was — unresolved on a fresh transaction.
pub proof fn lemma_undecodable_bytes_degrade(s: LearnerView, ev: ResponseEvent)
    requires
        !s.notified,
        decode_failed(ev.peer_certificate),
    ensures
        response_step(s, ev).1.downstream_decode_warning,
        response_step(s, ev).0.downstream_peer_certificate == s.downstream_peer_certificate,
{
}

/// Over any sequence of response-phase events, the number of emitted edges
/// equals the change of the notified flag: one when the run ends notified
/// having started un-notified, zero otherwise.
pub proof fn lemma_emissions_track_notification(s: LearnerView, evs: Seq<ResponseEvent>)
    ensures
        run_emissions(s, evs) == (if run_state(s, evs).notified {
            1int
        } else {
            0int
        }) - (if s.notified {
            1int
        } else {
            0int
        }),
    decreases evs.len(),
{
    if evs.len() > 0 {
        lemma_emissions_track_notification(response_step(s, evs[0]).0, evs.drop_first());
    }
}

/// For one transaction, an edge is emitted — and with it the response header
/// set — at most once, whatever response-phase events the host delivers.
pub proof fn lemma_edge_emitted_at_most_once(s: LearnerView, evs: Seq<ResponseEvent>)
    ensures
        run_emissions(s, evs) <= 1,
{
    lemma_emissions_track_notification(s, evs);
}

/// A run whose last event is the final frame of the response header block
/// always ends in the notified state.
pub proof fn lemma_final_frame_notifies(s: LearnerView, evs: Seq<ResponseEvent>)
    requires
        evs.len() > 0,
        evs.last().end_of_stream,
    ensures
        run_state(s, evs).notified,
    decreases evs.len(),
{
    if evs.len() > 1 {
        assert(evs.drop_first().last() == evs.last());
        lemma_final_frame_notifies(response_step(s, evs[0]).0, evs.drop_first());
    } else {
        assert(run_state(response_step(s, evs[0]).0, evs.drop_first()) == response_step(
            s,
            evs[0],
        ).0);
    }
}

/// If the final frame of the response header block is reached, exactly one
/// edge has been emitted for the transaction — regardless of whether the
/// downstream or upstream identity was ever resolved.
pub proof fn lemma_edge_emitted_by_final_frame(s: LearnerView, evs: Seq<ResponseEvent>)
    requires
        !s.notified,
        evs.len() > 0,
        evs.last().end_of_stream,
    ensures
        run_emissions(s, evs) == 1,
{
    lemma_final_frame_notifies(s, evs);
    lemma_emissions_track_notification(s, evs);
}

/// The emission directive handed back to the host glue: set the named
/// response header (if one is configured) to the edge string, and trace it.
pub struct Emission {
    pub response_header: Option<String>,
    pub edge: String,
}

impl View for Emission {
    type V = EmissionView;

    open spec fn view(&self) -> EmissionView {
        EmissionView {
            response_header: self.response_header.deep_view(),
            edge: self.edge@,
        }
    }
}

/// The outcome of one response-phase event, handed back to the host glue:
/// diagnostics to log, and at most one emission directive.
pub struct ResponseOutcome {
    pub mtls_warning: bool,
    pub downstream_decode_warning: bool,
    pub upstream_decode_warning: bool,
    pub emission: Option<Emission>,
}

impl View for ResponseOutcome {
    type V = OutcomeView;

    open spec fn view(&self) -> OutcomeView {
        OutcomeView {
            mtls_warning: self.mtls_warning,
            downstream_decode_warning: self.downstream_decode_warning,
            upstream_decode_warning: self.upstream_decode_warning,
            emission: match self.emission {
                Some(e) => Some(e@),
                None => None,
            },
        }
    }
}

/// The per-transaction observer. Exclusively owned by the one callback
/// sequence of its transaction; destroyed with the transaction.
pub struct DependencyLearner {
    pub notified: bool,
    pub path: Option<String>,
    pub authority: Option<String>,
    pub upstream_cluster: Option<String>,
    pub downstream_peer_certificate: Option<String>,
    pub config: DependencyLearnerConfig,
}

impl View for DependencyLearner {
    type V = LearnerView;

    open spec fn view(&self) -> LearnerView {
        LearnerView {
            notified: self.notified,
            authority: self.authority.deep_view(),
            path: self.path.deep_view(),
            upstream_cluster: self.upstream_cluster.deep_view(),
            downstream_peer_certificate: self.downstream_peer_certificate.deep_view(),
            response_header: self.config.response_header.deep_view(),
        }
    }
}

impl DependencyLearner {
    /// A fresh observer: nothing captured, nothing emitted, carrying a
    /// value-copy of the validated configuration.
    pub fn new(config: DependencyLearnerConfig) -> (r: Self)
        ensures
            !r.notified,
            r.authority is None,
            r.path is None,
            r.upstream_cluster is None,
            r.downstream_peer_certificate is None,
            r.config == config,
    {
        DependencyLearner {
            notified: false,
            path: None,
            authority: None,
            upstream_cluster: None,
            downstream_peer_certificate: None,
            config,
        }
    }

    /// Absorbs the request-phase observations: a no-op before the final frame
    /// of the request header block; at the final frame, captures the routing
    /// authority and path, absence recorded as unknown, never as an error.
    pub fn on_http_request_headers(
        &mut self,
        end_of_stream: bool,
        authority: Option<String>,
        path: Option<String>,
    )
        ensures
            final(self)@ == request_step(
                old(self)@,
                end_of_stream,
                authority.deep_view(),
                path.deep_view(),
            ),
            final(self).config == old(self).config,
            final(self).notified == old(self).notified,
    {
        if !end_of_stream {
            return ;
        }
        if let Some(a) = authority {
            self.authority = Some(a);
        }
        if let Some(p) = path {
            self.path = Some(p);
        }
    }

    /// Absorbs one response-phase event and decides whether to emit the edge,
    /// as `response_step` states: a no-op once notified; otherwise the
    /// identities absorb the raw property values, diagnostics are reported
    /// for a non-mutual connection and for undecodable bytes, and the edge is
    /// emitted — at most once per transaction — as soon as the upstream
    /// identity is resolved or the response header block ends.
    pub fn on_http_response_headers(
        &mut self,
        end_of_stream: bool,
        mtls: Option<Vec<u8>>,
        peer_certificate: Option<Vec<u8>>,
        cluster_name: Option<Vec<u8>>,
    ) -> (r: ResponseOutcome)
        ensures
            ({
                let (s1, out) = response_step(
                    old(self)@,
                    (ResponseEvent {
                        end_of_stream,
                        mtls: raw_view(mtls),
                        peer_certificate: raw_view(peer_certificate),
                        cluster_name: raw_view(cluster_name),
                    }),
                );
                final(self)@ == s1 && r@ == out
            }),
    {
        if self.notified {
            return ResponseOutcome {
                mtls_warning: false,
                downstream_decode_warning: false,
                upstream_decode_warning: false,
                emission: None,
            };
        }

        let mtls_warning = !match &mtls {
            Some(b) => b.len() == 1 && b[0] > 0,
            None => false,
        };

        let mut downstream_decode_warning = false;
        match peer_certificate {
            Some(b) => match string_from_utf8(b) {
                Some(t) => {
                    self.downstream_peer_certificate = Some(t);
                },
                None => {
                    downstream_decode_warning = true;
                },
            },
            None => {},
        }

        let mut upstream_decode_warning = false;
        match cluster_name {
            Some(b) => match string_from_utf8(b) {
                Some(t) => {
                    self.upstream_cluster = Some(t);
                },
                None => {
                    upstream_decode_warning = true;
                },
            },
            None => {},
        }

        let emission: Option<Emission> = if self.upstream_cluster.is_some() || end_of_stream {
            let edge = render_edge(&self.downstream_peer_certificate, &self.upstream_cluster);
            let header_copy: Option<String> = match &self.config.response_header {
                Some(h) => Some(h.clone()),
                None => None,
            };
            self.notified = true;
            Some(Emission { response_header: header_copy, edge })
        } else {
            None
        };

        let outcome = ResponseOutcome {
            mtls_warning,
            downstream_decode_warning,
            upstream_decode_warning,
            emission,
        };
        proof {
            let ev = ResponseEvent {
                end_of_stream,
                mtls: raw_view(mtls),
                peer_certificate: raw_view(peer_certificate),
                cluster_name: raw_view(cluster_name),
            };
            let (s1, out) = response_step(old(self)@, ev);
            assert(self@ =~~= s1);
            assert(outcome@ =~~= out);
        }
        outcome
    }
}

} // verus!
