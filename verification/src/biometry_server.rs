//! The embedded fingerprint-reader simulator: its shared state, what each
//! endpoint answers, and the decisions around starting and stopping it.
//!
//! Nothing here listens on a socket. A host binds the listener, parses the
//! request bodies and hands them over; the functions below say which status
//! and which body go back, and what becomes of the shared state.

use crate::text::{
    concat2, concat3, decimal, eq_ignore_ascii_case, equal_ignoring_ascii_case, to_decimal, trim,
    trimmed,
};
use tokio::sync::oneshot::{Receiver, Sender};
use vstd::prelude::*;

verus! {

/// The sending half of tokio's one-shot channel, carried as an opaque value.
#[verifier::external_type_specification]
#[verifier::external_body]
#[verifier::reject_recursive_types(T)]
pub struct ExOneshotSender<T>(Sender<T>);

/// The receiving half of tokio's one-shot channel, carried as an opaque value.
#[verifier::external_type_specification]
#[verifier::external_body]
#[verifier::reject_recursive_types(T)]
pub struct ExOneshotReceiver<T>(Receiver<T>);

/// What awaiting a receiver yields once its sender is gone; declared because
/// the receiver's type mentions it.
#[verifier::external_type_specification]
#[verifier::external_body]
pub struct ExOneshotRecvError(tokio::sync::oneshot::error::RecvError);

/// Whether `tx` and `rx` are the two halves of one channel, as
/// `tokio::sync::oneshot::channel` makes them: what is sent on `tx` arrives
/// at `rx` and nowhere else.
pub uninterp spec fn same_channel(tx: Sender<()>, rx: Receiver<()>) -> bool;

/// Calls `tokio::sync::oneshot::channel`, which makes one channel and hands
/// out its two halves. That they belong together is all that is claimed.
#[verifier::external_body]
fn new_shutdown_channel() -> (halves: (Sender<()>, Receiver<()>))
    ensures
        same_channel(halves.0, halves.1),
{
    tokio::sync::oneshot::channel::<()>()
}

/// Calls `tokio::sync::oneshot::Sender::send` with the unit value and tells
/// whether the receiver was still there. Whether it was depends on the other
/// half of the channel, so nothing is claimed of the answer.
#[verifier::external_body]
fn fire_shutdown(tx: Sender<()>) -> (delivered: bool) {
    tx.send(()).is_ok()
}

/// The status of a request that was served.
pub const STATUS_OK: u16 = 200;

/// The status of a request that lacks what it must carry.
pub const STATUS_BAD_REQUEST: u16 = 400;

/// The status of a capture when nothing is enrolled.
pub const STATUS_NOT_FOUND: u16 = 404;

/// The status of a shutdown request that finds nothing to shut down.
pub const STATUS_INTERNAL_SERVER_ERROR: u16 = 500;

/// What the request handlers share: the enrolled reference codes and, while
/// the service runs, the sender that stops it.
pub struct BiometryServerState {
    biometry_data: Vec<String>,
    shutdown_tx: Option<Sender<()>>,
}

/// The state as the contracts see it. The service is either stopped or
/// running; starting and stopping each last no longer than the one call that
/// takes the state from the one to the other.
pub struct BiometryServerView {
    /// The enrolled reference codes, in order.
    pub codes: Seq<Seq<char>>,
    /// The sender that stops the service, held while the service runs.
    pub shutdown: Option<Sender<()>>,
}

impl BiometryServerView {
    /// Whether a shutdown sender is held, i.e. the service counts as running.
    pub open spec fn armed(self) -> bool {
        self.shutdown is Some
    }

    /// Whether the service runs and `rx` is where its shutdown sender sends
    /// to.
    pub open spec fn stopped_through(self, rx: Receiver<()>) -> bool {
        self.shutdown matches Some(tx) && same_channel(tx, rx)
    }
}

impl View for BiometryServerState {
    type V = BiometryServerView;

    closed spec fn view(&self) -> BiometryServerView {
        BiometryServerView {
            codes: self.biometry_data.deep_view(),
            shutdown: self.shutdown_tx,
        }
    }
}

impl BiometryServerState {
    /// A stopped service with nothing enrolled.
    pub fn new() -> (state: Self)
        ensures
            state@.codes == Seq::<Seq<char>>::empty(),
            !state@.armed(),
    {
        let state = Self { biometry_data: Vec::new(), shutdown_tx: None };
        state
    }

    /// Replaces the enrolled reference codes.
    pub fn set_biometry_data(&mut self, data: Vec<String>)
        ensures
            final(self)@.codes == data.deep_view(),
            final(self)@.shutdown == old(self)@.shutdown,
    {
        self.biometry_data = data;
    }

    /// The enrolled reference codes.
    pub fn biometry_data(&self) -> (data: &Vec<String>)
        ensures
            data.deep_view() == self@.codes,
    {
        &self.biometry_data
    }
}

/// Body of a capture request.
#[derive(Debug, PartialEq, Eq)]
pub struct CaptureRequest {
    pub command: String,
}

/// Body of a verification request: the candidate codes, of which the first
/// one counts.
#[derive(Debug, PartialEq, Eq)]
pub struct VerifyRequest {
    pub command: String,
    pub code: Vec<String>,
}

/// Body of the answer to a capture request.
#[derive(Debug, PartialEq, Eq)]
pub struct CaptureResponse {
    pub success: bool,
    pub code: Option<String>,
    pub message: Option<String>,
}

/// Body of the answer to a verification request. `matched` goes over the
/// wire under the key `match`.
#[derive(Debug, PartialEq, Eq)]
pub struct VerifyResponse {
    pub success: bool,
    pub matched: bool,
    pub message: Option<String>,
}

/// Body of the answer to a shutdown request.
#[derive(Debug, PartialEq, Eq)]
pub struct ShutdownResponse {
    pub success: bool,
    pub message: String,
}

/// Body of a request to the combined endpoint; every field may be absent.
#[derive(Debug, PartialEq, Eq)]
pub struct RootRequest {
    pub device: Option<String>,
    pub command: Option<String>,
    pub code: Option<Vec<String>>,
}

/// Body of the answer of the combined endpoint: one of the other two.
#[derive(Debug, PartialEq, Eq)]
pub enum RootResponse {
    Capture(CaptureResponse),
    Verify(VerifyResponse),
}

/// `CaptureResponse` as the contracts see it.
pub struct CaptureResponseView {
    pub success: bool,
    pub code: Option<Seq<char>>,
    pub message: Option<Seq<char>>,
}

/// `VerifyResponse` as the contracts see it.
pub struct VerifyResponseView {
    pub success: bool,
    pub matched: bool,
    pub message: Option<Seq<char>>,
}

/// `ShutdownResponse` as the contracts see it.
pub struct ShutdownResponseView {
    pub success: bool,
    pub message: Seq<char>,
}

/// `RootRequest` as the contracts see it.
pub struct RootRequestView {
    pub device: Option<Seq<char>>,
    pub command: Option<Seq<char>>,
    pub code: Option<Seq<Seq<char>>>,
}

/// `RootResponse` as the contracts see it.
pub enum RootResponseView {
    Capture(CaptureResponseView),
    Verify(VerifyResponseView),
}

impl View for CaptureResponse {
    type V = CaptureResponseView;

    open spec fn view(&self) -> CaptureResponseView {
        CaptureResponseView {
            success: self.success,
            code: self.code.deep_view(),
            message: self.message.deep_view(),
        }
    }
}

impl View for VerifyResponse {
    type V = VerifyResponseView;

    open spec fn view(&self) -> VerifyResponseView {
        VerifyResponseView {
            success: self.success,
            matched: self.matched,
            message: self.message.deep_view(),
        }
    }
}

impl View for ShutdownResponse {
    type V = ShutdownResponseView;

    open spec fn view(&self) -> ShutdownResponseView {
        ShutdownResponseView { success: self.success, message: self.message@ }
    }
}

impl View for RootRequest {
    type V = RootRequestView;

    open spec fn view(&self) -> RootRequestView {
        RootRequestView {
            device: self.device.deep_view(),
            command: self.command.deep_view(),
            code: self.code.deep_view(),
        }
    }
}

impl View for RootResponse {
    type V = RootResponseView;

    open spec fn view(&self) -> RootResponseView {
        match self {
            RootResponse::Capture(r) => RootResponseView::Capture(r@),
            RootResponse::Verify(r) => RootResponseView::Verify(r@),
        }
    }
}

/// Message of a capture that finds nothing enrolled.
pub open spec fn nothing_enrolled_text() -> Seq<char> {
    "Nenhuma biometria registrada no emulador."@
}

/// Message of a verification without a candidate.
pub open spec fn no_candidate_text() -> Seq<char> {
    "Código de biometria não fornecido."@
}

/// Message of every verification that was carried out.
pub open spec fn simulated_verification_text() -> Seq<char> {
    "Verificação simulada."@
}

/// Message of a shutdown that was signalled.
pub open spec fn shutting_down_text() -> Seq<char> {
    "Servidor desligando."@
}

/// Message of a shutdown request that found no running service.
pub open spec fn cannot_shut_down_text() -> Seq<char> {
    "Não foi possível desligar o servidor."@
}

/// The answer to a capture: the first enrolled code, or not-found when
/// nothing is enrolled.
pub open spec fn capture_reply(codes: Seq<Seq<char>>) -> (u16, CaptureResponseView) {
    if codes.len() == 0 {
        (
            STATUS_NOT_FOUND,
            CaptureResponseView {
                success: false,
                code: None,
                message: Some(nothing_enrolled_text()),
            },
        )
    } else {
        (STATUS_OK, CaptureResponseView { success: true, code: Some(codes[0]), message: None })
    }
}

/// Whether some enrolled code equals `candidate` once both are trimmed.
pub open spec fn exact_match(codes: Seq<Seq<char>>, candidate: Seq<char>) -> bool {
    exists|i: int| 0 <= i < codes.len() && trimmed(#[trigger] codes[i]) == trimmed(candidate)
}

/// The answer of the verify endpoint. It is permissive on purpose: with at
/// least one enrolled code every non-empty request matches, whatever the
/// candidate is; `exact_match` plays no part in it.
pub open spec fn verify_reply(codes: Seq<Seq<char>>, candidates: Seq<Seq<char>>) -> (
    u16,
    VerifyResponseView,
) {
    if candidates.len() == 0 {
        (
            STATUS_BAD_REQUEST,
            VerifyResponseView {
                success: false,
                matched: false,
                message: Some(no_candidate_text()),
            },
        )
    } else {
        (
            STATUS_OK,
            VerifyResponseView {
                success: true,
                matched: codes.len() > 0,
                message: Some(simulated_verification_text()),
            },
        )
    }
}

/// Whether a request to the combined endpoint asks for a verification: its
/// body was readable and its command is `verify` in any ASCII case. The
/// command alone decides.
pub open spec fn asks_verification(payload: Option<RootRequestView>) -> bool {
    &&& payload matches Some(req)
    &&& req.command matches Some(command)
    &&& equal_ignoring_ascii_case(command, "verify"@)
}

/// The candidates that a request to the combined endpoint carries: those of
/// its `code` field, and none when it has no such field.
pub open spec fn candidates_of(req: RootRequestView) -> Seq<Seq<char>> {
    match req.code {
        Some(candidates) => candidates,
        None => Seq::empty(),
    }
}

/// The answer of the combined endpoint. A verification without a candidate
/// is a bad request, whether the list of candidates is empty or missing. A
/// verification with one reports the exact match of the trimmed first
/// candidate, without the permissive rule of the verify endpoint. Everything
/// else is answered as a capture.
pub open spec fn root_reply(codes: Seq<Seq<char>>, payload: Option<RootRequestView>) -> (
    u16,
    RootResponseView,
) {
    if asks_verification(payload) {
        let candidates = candidates_of(payload->0);
        if candidates.len() == 0 {
            (
                STATUS_BAD_REQUEST,
                RootResponseView::Verify(
                    VerifyResponseView {
                        success: false,
                        matched: false,
                        message: Some(no_candidate_text()),
                    },
                ),
            )
        } else {
            (
                STATUS_OK,
                RootResponseView::Verify(
                    VerifyResponseView {
                        success: true,
                        matched: exact_match(codes, candidates[0]),
                        message: Some(simulated_verification_text()),
                    },
                ),
            )
        }
    } else {
        (capture_reply(codes).0, RootResponseView::Capture(capture_reply(codes).1))
    }
}

/// The answer to a shutdown request and whether a sender is still held
/// afterwards: the first request of a running service succeeds and uses the
/// sender up, any other fails and changes nothing.
pub open spec fn shutdown_reply(armed: bool) -> (u16, ShutdownResponseView, bool) {
    if armed {
        (
            STATUS_OK,
            ShutdownResponseView { success: true, message: shutting_down_text() },
            false,
        )
    } else {
        (
            STATUS_INTERNAL_SERVER_ERROR,
            ShutdownResponseView { success: false, message: cannot_shut_down_text() },
            false,
        )
    }
}

/// Decides `exact_match`.
pub fn has_exact_match(codes: &Vec<String>, candidate: &str) -> (found: bool)
    ensures
        found == exact_match(codes.deep_view(), candidate@),
{
    let wanted = trim(candidate);
    let mut i: usize = 0;
    while i < codes.len()
        invariant
            i <= codes.len(),
            wanted@ == trimmed(candidate@),
            forall|k: int| 0 <= k < i ==> trimmed(#[trigger] codes.deep_view()[k]) != trimmed(candidate@),
        decreases codes.len() - i,
    {
        let have = trim(codes[i].as_str());
        assert(codes.deep_view()[i as int] == codes[i as int]@);
        if have == wanted {
            return true;
        }
        i = i + 1;
    }
    false
}

/// Answers a capture request.
pub fn handle_capture(state: &BiometryServerState) -> (reply: (u16, CaptureResponse))
    ensures
        (reply.0, reply.1@) == capture_reply(state@.codes),
{
    if state.biometry_data.len() == 0 {
        return (
            STATUS_NOT_FOUND,
            CaptureResponse {
                success: false,
                code: None,
                message: Some("Nenhuma biometria registrada no emulador.".to_string()),
            },
        );
    }
    (
        STATUS_OK,
        CaptureResponse { success: true, code: Some(state.biometry_data[0].clone()), message: None },
    )
}

/// Answers a verification request.
pub fn handle_verify(state: &BiometryServerState, payload: &VerifyRequest) -> (reply: (
    u16,
    VerifyResponse,
))
    ensures
        (reply.0, reply.1@) == verify_reply(state@.codes, payload.code.deep_view()),
{
    if payload.code.len() == 0 {
        return (
            STATUS_BAD_REQUEST,
            VerifyResponse {
                success: false,
                matched: false,
                message: Some("Código de biometria não fornecido.".to_string()),
            },
        );
    }
    let has_any = state.biometry_data.len() != 0;
    (
        STATUS_OK,
        VerifyResponse {
            success: true,
            matched: has_any,
            message: Some("Verificação simulada.".to_string()),
        },
    )
}

/// Answers a request to the combined endpoint. `payload` is `None` when the
/// body could not be read as a request.
pub fn handle_root(state: &BiometryServerState, payload: Option<&RootRequest>) -> (reply: (
    u16,
    RootResponse,
))
    ensures
        (reply.0, reply.1@) == root_reply(
            state@.codes,
            match payload {
                Some(req) => Some(req@),
                None => None,
            },
        ),
{
    if let Some(req) = payload {
        if let Some(command) = &req.command {
            if eq_ignore_ascii_case(command.as_str(), "verify") {
                let first = match &req.code {
                    Some(codes) => if codes.len() == 0 {
                        None
                    } else {
                        assert(codes.deep_view()[0] == codes[0]@);
                        Some(&codes[0])
                    },
                    None => None,
                };
                return match first {
                    None => (
                        STATUS_BAD_REQUEST,
                        RootResponse::Verify(
                            VerifyResponse {
                                success: false,
                                matched: false,
                                message: Some("Código de biometria não fornecido.".to_string()),
                            },
                        ),
                    ),
                    Some(candidate) => (
                        STATUS_OK,
                        RootResponse::Verify(
                            VerifyResponse {
                                success: true,
                                matched: has_exact_match(&state.biometry_data, candidate.as_str()),
                                message: Some("Verificação simulada.".to_string()),
                            },
                        ),
                    ),
                };
            }
        }
    }
    let (status, body) = handle_capture(state);
    (status, RootResponse::Capture(body))
}

/// Answers a shutdown request: fires the held sender, if there is one, and
/// gives it up.
pub fn handle_shutdown(state: &mut BiometryServerState) -> (reply: (u16, ShutdownResponse))
    ensures
        (reply.0, reply.1@, final(state)@.armed()) == shutdown_reply(old(state)@.armed()),
        final(state)@.codes == old(state)@.codes,
{
    match state.shutdown_tx.take() {
        Some(tx) => {
            let _ = fire_shutdown(tx);
            (
                STATUS_OK,
                ShutdownResponse { success: true, message: "Servidor desligando.".to_string() },
            )
        },
        None => (
            STATUS_INTERNAL_SERVER_ERROR,
            ShutdownResponse {
                success: false,
                message: "Não foi possível desligar o servidor.".to_string(),
            },
        ),
    }
}

/// How the host fared when it tried to listen on the requested address.
#[derive(Debug, PartialEq, Eq)]
pub enum ListenerOutcome {
    /// The listener is bound and ready to serve.
    Bound,
    /// The address could not be read; the text says why.
    InvalidAddress(String),
    /// The address could not be bound (in use, not permitted).
    BindFailed { address: String, error: String },
}

/// How the host fared when it asked a running service to shut down.
#[derive(Debug, PartialEq, Eq)]
pub enum ShutdownCall {
    /// The request was delivered.
    Delivered,
    /// Nothing listens at the address any more.
    Unreachable(String),
    /// The request failed for another reason.
    Failed(String),
}

/// `host:port`, the address to listen on.
pub open spec fn listen_address_text(host: Seq<char>, port: u16) -> Seq<char> {
    host + ":"@ + decimal(port as nat)
}

/// The address of the shutdown endpoint of the service at `host:port`.
pub open spec fn shutdown_url_text(host: Seq<char>, port: u16) -> Seq<char> {
    "http://"@ + host + ":"@ + decimal(port as nat) + "/shutdown"@
}

/// The refusal of a start, by what went wrong with the listener; `None`
/// when the listener is bound.
pub open spec fn start_refusal(listener: ListenerOutcome) -> Option<Seq<char>> {
    match listener {
        ListenerOutcome::Bound => None,
        ListenerOutcome::InvalidAddress(e) => Some("Endereço inválido: "@ + e@),
        ListenerOutcome::BindFailed { address, error } => Some(
            "Falha ao vincular servidor em "@ + address@ + ": "@ + error@,
        ),
    }
}

/// The refusal of `run_server`, by what went wrong with the listener; `None`
/// when the listener is bound.
pub open spec fn run_refusal(listener: ListenerOutcome) -> Option<Seq<char>> {
    match listener {
        ListenerOutcome::Bound => None,
        ListenerOutcome::InvalidAddress(e) => Some("Endereço inválido: "@ + e@),
        ListenerOutcome::BindFailed { address, error } => Some(
            "Failed to bind to address: "@ + error@,
        ),
    }
}

/// The text `host:port`.
pub fn listen_address(host: &str, port: u16) -> (address: String)
    ensures
        address@ == listen_address_text(host@, port),
{
    let digits = to_decimal(port as u64);
    concat3(host, ":", digits.as_str())
}

/// The URL that stops the service at `host:port`.
pub fn shutdown_url(host: &str, port: u16) -> (url: String)
    ensures
        url@ == shutdown_url_text(host@, port),
{
    let digits = to_decimal(port as u64);
    let mut url = concat3("http://", host, ":");
    url.append(digits.as_str());
    url.append("/shutdown");
    url
}

impl BiometryServerState {
    /// Puts the service into its running state: enrols `data` and arms a fresh
    /// shutdown channel, whose receiving half is handed out.
    fn arm(&mut self, data: Vec<String>) -> (rx: Receiver<()>)
        ensures
            final(self)@.codes == data.deep_view(),
            final(self)@.stopped_through(rx),
    {
        self.biometry_data = data;
        let (tx, rx) = new_shutdown_channel();
        self.shutdown_tx = Some(tx);
        rx
    }
}

/// Starts the service on a listener that the host has tried to bind.
///
/// With a bound listener the codes are enrolled, a fresh shutdown channel is
/// armed, and the receiving half of that very channel is returned: the host
/// serves until that half fires. Otherwise the refusal says what failed and the state is
/// exactly what it was.
pub fn start_biometry_server(
    state: &mut BiometryServerState,
    listener: ListenerOutcome,
    biometry_data: Vec<String>,
) -> (started: Result<Receiver<()>, String>)
    ensures
        match start_refusal(listener) {
            None => started matches Ok(rx) && final(state)@.codes == biometry_data.deep_view()
                && final(state)@.stopped_through(rx),
            Some(text) => started matches Err(e) && e@ == text && *final(state) == *old(state),
        },
{
    match listener {
        ListenerOutcome::Bound => Ok(state.arm(biometry_data)),
        ListenerOutcome::InvalidAddress(e) => Err(concat2("Endereço inválido: ", e.as_str())),
        ListenerOutcome::BindFailed { address, error } => {
            let mut text = concat2("Falha ao vincular servidor em ", address.as_str());
            text.append(": ");
            text.append(error.as_str());
            Err(text)
        },
    }
}

/// The same start for a host that serves in the foreground; only the
/// wording of a failed bind differs.
pub fn run_server(
    state: &mut BiometryServerState,
    listener: ListenerOutcome,
    biometry_data: Vec<String>,
) -> (started: Result<Receiver<()>, String>)
    ensures
        match run_refusal(listener) {
            None => started matches Ok(rx) && final(state)@.codes == biometry_data.deep_view()
                && final(state)@.stopped_through(rx),
            Some(text) => started matches Err(e) && e@ == text && *final(state) == *old(state),
        },
{
    match listener {
        ListenerOutcome::Bound => Ok(state.arm(biometry_data)),
        ListenerOutcome::InvalidAddress(e) => Err(concat2("Endereço inválido: ", e.as_str())),
        ListenerOutcome::BindFailed { address, error } => Err(
            concat2("Failed to bind to address: ", error.as_str()),
        ),
    }
}

/// What `run_server` reports once serving has ended: a failure of the
/// server is passed on under a fixed heading.
pub fn server_finished(served: Result<(), String>) -> (r: Result<(), String>)
    ensures
        match served {
            Ok(_) => r is Ok,
            Err(e) => r matches Err(text) && text@ == "Erro no servidor: "@ + e@,
        },
{
    match served {
        Ok(_) => Ok(()),
        Err(e) => Err(concat2("Erro no servidor: ", e.as_str())),
    }
}

/// Whether the service counts as running: a shutdown sender is held.
pub fn check_biometry_server_status(state: &BiometryServerState) -> (running: bool)
    ensures
        running == state@.armed(),
{
    state.shutdown_tx.is_some()
}

/// Concludes a stop that the host attempted over the network.
///
/// A delivered request leaves the state to the shutdown handler. Any failure
/// gives the sender up; an unreachable service counts as already stopped,
/// every other failure is reported.
pub fn stop_biometry_server(state: &mut BiometryServerState, call: ShutdownCall) -> (stopped: Result<
    bool,
    String,
>)
    ensures
        final(state)@.codes == old(state)@.codes,
        match call {
            ShutdownCall::Delivered => stopped == Ok::<bool, String>(true) && *final(state) == *old(state),
            ShutdownCall::Unreachable(_) => stopped == Ok::<bool, String>(true) && !final(state)@.armed(),
            ShutdownCall::Failed(e) => stopped matches Err(text) && text@
                == "Erro ao desligar servidor: "@ + e@ && !final(state)@.armed(),
        },
{
    match call {
        ShutdownCall::Delivered => Ok(true),
        ShutdownCall::Unreachable(_) => {
            state.shutdown_tx = None;
            Ok(true)
        },
        ShutdownCall::Failed(e) => {
            state.shutdown_tx = None;
            Err(concat2("Erro ao desligar servidor: ", e.as_str()))
        },
    }
}

/// A verification without any candidate is a bad request and never a match,
/// whatever is enrolled.
pub proof fn lemma_verify_without_candidate(codes: Seq<Seq<char>>)
    ensures
        verify_reply(codes, Seq::empty()).0 == 400,
        !verify_reply(codes, Seq::empty()).1.matched,
        !verify_reply(codes, Seq::empty()).1.success,
{
}

/// With a candidate and at least one enrolled code a verification succeeds
/// and matches, also when no enrolled code equals the candidate.
pub proof fn lemma_verify_is_permissive(codes: Seq<Seq<char>>, candidates: Seq<Seq<char>>)
    requires
        candidates.len() > 0,
        codes.len() > 0,
    ensures
        verify_reply(codes, candidates).0 == 200,
        verify_reply(codes, candidates).1.success,
        verify_reply(codes, candidates).1.matched,
        !exact_match(codes, candidates[0]) ==> verify_reply(codes, candidates).1.matched,
{
}

/// On the combined endpoint the command alone chooses the verification,
/// and a verification without a candidate is a bad request and never a
/// match: so it is when the list of candidates is empty, and so it is when
/// the request has no such list at all, whatever is enrolled.
pub proof fn lemma_root_verify_needs_a_candidate(codes: Seq<Seq<char>>, req: RootRequestView)
    requires
        req.command matches Some(command) && equal_ignoring_ascii_case(command, "verify"@),
        req.code is None || req.code == Some(Seq::<Seq<char>>::empty()),
    ensures
        root_reply(codes, Some(req)).0 == 400,
        root_reply(codes, Some(req)).1 == RootResponseView::Verify(
            VerifyResponseView {
                success: false,
                matched: false,
                message: Some(no_candidate_text()),
            },
        ),
{
}

/// A capture finds nothing when nothing is enrolled, and otherwise hands out
/// the first enrolled code.
pub proof fn lemma_capture_first_code(codes: Seq<Seq<char>>)
    ensures
        codes.len() == 0 ==> capture_reply(codes).0 == 404 && !capture_reply(codes).1.success
            && capture_reply(codes).1.code is None,
        codes.len() >= 1 ==> capture_reply(codes).0 == 200 && capture_reply(codes).1.success
            && capture_reply(codes).1.code == Some(codes[0]),
{
}

/// Of two shutdown requests in a row to a running service the first
/// succeeds and the second fails, the sender being used up by the first.
pub proof fn lemma_shutdown_only_once()
    ensures
        shutdown_reply(true).0 == 200,
        shutdown_reply(true).1.success,
        shutdown_reply(shutdown_reply(true).2).0 == 500,
        !shutdown_reply(shutdown_reply(true).2).1.success,
{
}

} // verus!
