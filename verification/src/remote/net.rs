//! The HTTP side of the client: errors, requests, and how the server's
//! replies are read.

use vstd::prelude::*;
use crate::remote::protocol::{RemoteGPIO, RemoteResponse};

verus! {

/// Why an exchange with the server failed, with a message.
#[derive(Debug, Clone, PartialEq, Eq)]
pub enum RemoteError {
    /// The request did not reach the server or no reply came back.
    ConnectionError(String),
    /// A reply came back but could not be read.
    ParseError(String),
    /// The server answered that the request failed.
    RemoteError(String),
    /// Anything else went wrong.
    OtherError(String),
}

/// What a `RemoteError` is, with its message as characters.
pub enum RemoteErrorView {
    ConnectionError(Seq<char>),
    ParseError(Seq<char>),
    RemoteError(Seq<char>),
    OtherError(Seq<char>),
}

impl View for RemoteError {
    type V = RemoteErrorView;

    open spec fn view(&self) -> RemoteErrorView {
        match self {
            RemoteError::ConnectionError(m) => RemoteErrorView::ConnectionError(m@),
            RemoteError::ParseError(m) => RemoteErrorView::ParseError(m@),
            RemoteError::RemoteError(m) => RemoteErrorView::RemoteError(m@),
            RemoteError::OtherError(m) => RemoteErrorView::OtherError(m@),
        }
    }
}

impl RemoteErrorView {
    /// The message, whatever the kind of error.
    pub open spec fn message(self) -> Seq<char> {
        match self {
            RemoteErrorView::ConnectionError(m) => m,
            RemoteErrorView::ParseError(m) => m,
            RemoteErrorView::RemoteError(m) => m,
            RemoteErrorView::OtherError(m) => m,
        }
    }
}

impl RemoteError {
    /// The error's message, whatever its kind; the error itself is left as it was.
    pub fn unwrap(&mut self) -> (msg: String)
        ensures
            msg@ == old(self)@.message(),
            *final(self) == *old(self),
    {
        match &*self {
            RemoteError::ConnectionError(err) => err.clone(),
            RemoteError::ParseError(err) => err.clone(),
            RemoteError::RemoteError(err) => err.clone(),
            RemoteError::OtherError(err) => err.clone(),
        }
    }
}


/// The HTTP client of `reqwest`, carried through and handed to the code that
/// sends requests; nothing inside it is read here.
#[verifier::external_type_specification]
#[verifier::external_body]
pub struct ExClient(reqwest::Client);

/// Calls `reqwest::Client::new`. Nothing is claimed of the client it
/// returns. That function panics only where its builder fails, on a TLS
/// backend or a resolver configuration that cannot be set up; with the
/// features this crate selects no TLS backend is compiled in and the
/// resolver loads nothing when it is made, so the call does not panic.
#[verifier::external_body]
fn new_client() -> (c: reqwest::Client) {
    reqwest::Client::new()
}

/// Gives `<reqwest::Client as Clone>::clone` a contract so that a
/// `RemoteNet` can be cloned; the source clones the shared handle inside the
/// client. Nothing is claimed of the copy.
pub assume_specification[ <reqwest::Client as Clone>::clone ](c: &reqwest::Client) -> (r: reqwest::Client);

/// The server address that the client uses until the user changes it.
pub open spec fn default_address() -> Seq<char> {
    "http://0.0.0.0:10230"@
}

/// Where the server is, and the client that talks to it.
#[derive(Debug, Clone)]
pub struct RemoteNet {
    pub client: reqwest::Client,
    pub address: String,
}

impl RemoteNet {
    /// A connection to the server at the default address.
    pub fn new() -> (net: RemoteNet)
        ensures
            net.address@ == default_address(),
    {
        RemoteNet { client: new_client(), address: String::from_str("http://0.0.0.0:10230") }
    }

    /// The request that fetches `path` from the server with GET.
    pub fn get_request(&self, path: &str) -> (req: HttpRequest)
        ensures
            req.method == Method::Get,
            req.url@ == self.address@ + path@,
            req.body is None,
    {
        HttpRequest { method: Method::Get, url: self.address.clone().concat(path), body: None }
    }

    /// The request that posts `body` to `path` on the server.
    pub fn post_request(&self, path: &str, body: RemoteGPIO) -> (req: HttpRequest)
        ensures
            req.method == Method::Post,
            req.url@ == self.address@ + path@,
            req.body == Some(body),
    {
        HttpRequest { method: Method::Post, url: self.address.clone().concat(path), body: Some(body) }
    }
}

/// The HTTP method of a request.
#[derive(Clone, Copy, Debug, PartialEq, Eq, Structural)]
pub enum Method {
    Get,
    Post,
}

/// A request to the server: the method, the whole URL, and the pin sent as
/// the JSON body of a POST.
#[derive(Debug, Clone)]
pub struct HttpRequest {
    pub method: Method,
    pub url: String,
    pub body: Option<RemoteGPIO>,
}

/// What came back for a request, before it is interpreted: no reply at all,
/// a reply whose body could not be decoded, or the decoded envelope.
pub enum RawResponse<T> {
    ConnectionFailed(String),
    Malformed(String),
    Received(RemoteResponse<T>),
}

/// The view of a request's result: the data or the error's view.
pub open spec fn reply_view<T>(r: Result<Option<T>, RemoteError>) -> Result<Option<T>, RemoteErrorView> {
    match r {
        Ok(d) => Ok(d),
        Err(e) => Err(e@),
    }
}

/// What a raw response means: a failed connection and an unreadable body are
/// errors of their own kinds; a decoded envelope gives its data when its `ok`
/// is `true`, and otherwise the server's error message (empty where it sent
/// none).
pub open spec fn interpret<T>(raw: RawResponse<T>) -> Result<Option<T>, RemoteErrorView> {
    match raw {
        RawResponse::ConnectionFailed(m) => Err(RemoteErrorView::ConnectionError(m@)),
        RawResponse::Malformed(m) => Err(RemoteErrorView::ParseError(m@)),
        RawResponse::Received(resp) => if resp.ok == Some(true) {
            Ok(resp.data)
        } else {
            Err(RemoteErrorView::RemoteError(
                match resp.error {
                    Some(e) => e@,
                    None => Seq::<char>::empty(),
                },
            ))
        },
    }
}

/// Reads what came back for a request.
pub fn parse_response<T>(raw: RawResponse<T>) -> (r: Result<Option<T>, RemoteError>)
    ensures
        reply_view(r) == interpret(raw),
        raw is ConnectionFailed ==> r is Err && r->Err_0@ == RemoteErrorView::ConnectionError(raw->ConnectionFailed_0@),
        raw is Malformed ==> r is Err && r->Err_0@ == RemoteErrorView::ParseError(raw->Malformed_0@),
        raw is Received ==> (r is Ok <==> raw->Received_0.ok == Some(true)),
        raw is Received && raw->Received_0.ok == Some(true) ==> r == Ok::<Option<T>, RemoteError>(raw->Received_0.data),
        raw is Received && raw->Received_0.ok != Some(true) ==> r is Err && r->Err_0@ is RemoteError,
{
    match raw {
        RawResponse::ConnectionFailed(m) => Err(RemoteError::ConnectionError(m)),
        RawResponse::Malformed(m) => Err(RemoteError::ParseError(m)),
        RawResponse::Received(resp) => {
            let ok = match resp.ok {
                Some(b) => b,
                None => false,
            };
            if ok {
                Ok(resp.data)
            } else {
                match resp.error {
                    Some(e) => Err(RemoteError::RemoteError(e)),
                    None => Err(RemoteError::RemoteError(String::new())),
                }
            }
        },
    }
}

/// A reply counts as a success only where the server's envelope says `ok`
/// is true, and then gives the envelope's data; no connection is a
/// connection error and an undecodable body a parse error, each with its
/// message; any other envelope is an error of the server.
pub proof fn law_reply_success_needs_ok<T>(raw: RawResponse<T>)
    ensures
        raw is ConnectionFailed ==> interpret(raw)
            == Err::<Option<T>, RemoteErrorView>(RemoteErrorView::ConnectionError(raw->ConnectionFailed_0@)),
        raw is Malformed ==> interpret(raw)
            == Err::<Option<T>, RemoteErrorView>(RemoteErrorView::ParseError(raw->Malformed_0@)),
        raw is Received ==> (interpret(raw) is Ok <==> raw->Received_0.ok == Some(true)),
        raw is Received && raw->Received_0.ok == Some(true) ==> interpret(raw)
            == Ok::<Option<T>, RemoteErrorView>(raw->Received_0.data),
        raw is Received && raw->Received_0.ok != Some(true) ==> interpret(raw)->Err_0 is RemoteError,
{
}

/// Keeps only whether a request succeeded: its data is dropped, its error
/// passed on unchanged.
pub fn discard_data<T>(r: Result<Option<T>, RemoteError>) -> (a: Result<(), RemoteError>)
    ensures
        r is Ok <==> a is Ok,
        r is Err ==> a == Err::<(), RemoteError>(r->Err_0),
{
    match r {
        Err(err) => Err(err),
        Ok(_) => Ok(()),
    }
}

/// The message of the error that a ping ends with when its duration cannot
/// be measured.
pub open spec fn no_duration_message() -> Seq<char> {
    "Unable to get duration"@
}

/// The outcome of a ping: the reply's error where the server was not
/// reached, else the measured round trip, else an error saying that it
/// could not be measured.
pub fn ping_outcome<P, D>(response: Result<Option<P>, RemoteError>, elapsed: Option<D>) -> (r: Result<D, RemoteError>)
    ensures
        response is Err ==> r == Err::<D, RemoteError>(response->Err_0),
        response is Ok && elapsed is Some ==> r == Ok::<D, RemoteError>(elapsed->0),
        response is Ok && elapsed is None ==> r is Err && r->Err_0@ == RemoteErrorView::OtherError(no_duration_message()),
{
    match response {
        Err(err) => Err(err),
        Ok(_) => match elapsed {
            Some(v) => Ok(v),
            None => Err(RemoteError::OtherError(String::from_str("Unable to get duration"))),
        },
    }
}

/// Where a download into a file stands.
#[derive(Clone, Copy, Debug, PartialEq, Eq, Structural)]
pub enum DownloadStage {
    /// The GET request was sent; its response is awaited.
    AwaitingResponse,
    /// The file that receives the body is being created.
    CreatingFile,
    /// The next chunk of the body is being read.
    Reading,
    /// The chunk just read is being written to the file.
    Writing,
    /// The download is over.
    Done,
}

/// What the outside work of a download reported.
pub enum DownloadEvent {
    RequestFailed(String),
    ResponseArrived,
    FileFailed(String),
    FileCreated,
    ChunkFailed(String),
    BodyEnded,
    /// A chunk of the body, with its bytes.
    ChunkReceived(Vec<u8>),
    WriteFailed(String),
    ChunkWritten,
}

/// The view of a download event.
pub enum DownloadEventView {
    RequestFailed(Seq<char>),
    ResponseArrived,
    FileFailed(Seq<char>),
    FileCreated,
    ChunkFailed(Seq<char>),
    BodyEnded,
    ChunkReceived(Seq<u8>),
    WriteFailed(Seq<char>),
    ChunkWritten,
}

impl View for DownloadEvent {
    type V = DownloadEventView;

    open spec fn view(&self) -> DownloadEventView {
        match self {
            DownloadEvent::RequestFailed(m) => DownloadEventView::RequestFailed(m@),
            DownloadEvent::ResponseArrived => DownloadEventView::ResponseArrived,
            DownloadEvent::FileFailed(m) => DownloadEventView::FileFailed(m@),
            DownloadEvent::FileCreated => DownloadEventView::FileCreated,
            DownloadEvent::ChunkFailed(m) => DownloadEventView::ChunkFailed(m@),
            DownloadEvent::BodyEnded => DownloadEventView::BodyEnded,
            DownloadEvent::ChunkReceived(c) => DownloadEventView::ChunkReceived(c@),
            DownloadEvent::WriteFailed(m) => DownloadEventView::WriteFailed(m@),
            DownloadEvent::ChunkWritten => DownloadEventView::ChunkWritten,
        }
    }
}

/// What the outside work of a download is to do next.
pub enum DownloadAction {
    CreateFile,
    ReadChunk,
    /// Append these bytes to the file.
    WriteChunk(Vec<u8>),
    Finish(Result<(), RemoteError>),
}

/// The view of a download action.
pub enum DownloadActionView {
    CreateFile,
    ReadChunk,
    WriteChunk(Seq<u8>),
    Finish(Result<(), RemoteErrorView>),
}

impl View for DownloadAction {
    type V = DownloadActionView;

    open spec fn view(&self) -> DownloadActionView {
        match self {
            DownloadAction::CreateFile => DownloadActionView::CreateFile,
            DownloadAction::ReadChunk => DownloadActionView::ReadChunk,
            DownloadAction::WriteChunk(c) => DownloadActionView::WriteChunk(c@),
            DownloadAction::Finish(Ok(())) => DownloadActionView::Finish(Ok(())),
            DownloadAction::Finish(Err(e)) => DownloadActionView::Finish(Err(e@)),
        }
    }
}

/// The events that can come in each stage: the outcome of the work that
/// the stage waits for.
pub open spec fn event_fits(stage: DownloadStage, event: DownloadEventView) -> bool {
    match stage {
        DownloadStage::AwaitingResponse => event is RequestFailed || event is ResponseArrived,
        DownloadStage::CreatingFile => event is FileFailed || event is FileCreated,
        DownloadStage::Reading => event is ChunkFailed || event is BodyEnded || event is ChunkReceived,
        DownloadStage::Writing => event is WriteFailed || event is ChunkWritten,
        DownloadStage::Done => false,
    }
}

/// One step of a download: no response is a connection error, a file that
/// cannot be created or written is another error, a chunk that cannot be
/// read is a parse error, the end of the body ends the download well, and
/// otherwise the body is copied chunk by chunk.
pub open spec fn download_next(event: DownloadEventView) -> (DownloadStage, DownloadActionView) {
    match event {
        DownloadEventView::RequestFailed(m) =>
            (DownloadStage::Done, DownloadActionView::Finish(Err(RemoteErrorView::ConnectionError(m)))),
        DownloadEventView::ResponseArrived => (DownloadStage::CreatingFile, DownloadActionView::CreateFile),
        DownloadEventView::FileFailed(m) =>
            (DownloadStage::Done, DownloadActionView::Finish(Err(RemoteErrorView::OtherError(m)))),
        DownloadEventView::FileCreated => (DownloadStage::Reading, DownloadActionView::ReadChunk),
        DownloadEventView::ChunkFailed(m) =>
            (DownloadStage::Done, DownloadActionView::Finish(Err(RemoteErrorView::ParseError(m)))),
        DownloadEventView::BodyEnded => (DownloadStage::Done, DownloadActionView::Finish(Ok(()))),
        DownloadEventView::ChunkReceived(c) => (DownloadStage::Writing, DownloadActionView::WriteChunk(c)),
        DownloadEventView::WriteFailed(m) =>
            (DownloadStage::Done, DownloadActionView::Finish(Err(RemoteErrorView::OtherError(m)))),
        DownloadEventView::ChunkWritten => (DownloadStage::Reading, DownloadActionView::ReadChunk),
    }
}

/// Decides the next stage of a download and what to do, from what the last
/// piece of outside work reported.
pub fn download_step(stage: DownloadStage, event: DownloadEvent) -> (r: (DownloadStage, DownloadAction))
    requires
        event_fits(stage, event@),
    ensures
        (r.0, r.1@) == download_next(event@),
        r.0 == DownloadStage::Done <==> r.1 is Finish,
{
    match event {
        DownloadEvent::RequestFailed(m) =>
            (DownloadStage::Done, DownloadAction::Finish(Err(RemoteError::ConnectionError(m)))),
        DownloadEvent::ResponseArrived => (DownloadStage::CreatingFile, DownloadAction::CreateFile),
        DownloadEvent::FileFailed(m) =>
            (DownloadStage::Done, DownloadAction::Finish(Err(RemoteError::OtherError(m)))),
        DownloadEvent::FileCreated => (DownloadStage::Reading, DownloadAction::ReadChunk),
        DownloadEvent::ChunkFailed(m) =>
            (DownloadStage::Done, DownloadAction::Finish(Err(RemoteError::ParseError(m)))),
        DownloadEvent::BodyEnded => (DownloadStage::Done, DownloadAction::Finish(Ok(()))),
        DownloadEvent::ChunkReceived(c) => (DownloadStage::Writing, DownloadAction::WriteChunk(c)),
        DownloadEvent::WriteFailed(m) =>
            (DownloadStage::Done, DownloadAction::Finish(Err(RemoteError::OtherError(m)))),
        DownloadEvent::ChunkWritten => (DownloadStage::Reading, DownloadAction::ReadChunk),
    }
}

/// The stage that a download is in after the events `evs`, fed in order
/// from the start.
pub open spec fn stage_after(evs: Seq<DownloadEventView>) -> DownloadStage {
    if evs.len() == 0 { DownloadStage::AwaitingResponse } else { download_next(evs.last()).0 }
}

/// Every event of `evs` fits the stage that the events before it led to:
/// `evs` is what a download can report, from its start.
pub open spec fn valid_run(evs: Seq<DownloadEventView>) -> bool {
    forall|i: int| 0 <= i < evs.len() ==> #[trigger] event_fits(stage_after(evs.take(i)), evs[i])
}

/// An event that reports a failed piece of work.
pub open spec fn is_failure(event: DownloadEventView) -> bool {
    event is RequestFailed || event is FileFailed || event is ChunkFailed || event is WriteFailed
}

/// What the last event of `evs` led to.
pub open spec fn last_action(evs: Seq<DownloadEventView>) -> DownloadActionView {
    download_next(evs.last()).1
}

/// The bytes of the chunks received in `evs`, in order.
pub open spec fn received_bytes(evs: Seq<DownloadEventView>) -> Seq<u8>
    decreases evs.len(),
{
    if evs.len() == 0 {
        Seq::empty()
    } else {
        received_bytes(evs.drop_last()) + match evs.last() {
            DownloadEventView::ChunkReceived(c) => c,
            _ => Seq::empty(),
        }
    }
}

/// The bytes that the steps of `evs` asked to write to the file, in order.
pub open spec fn written_bytes(evs: Seq<DownloadEventView>) -> Seq<u8>
    decreases evs.len(),
{
    if evs.len() == 0 {
        Seq::empty()
    } else {
        written_bytes(evs.drop_last()) + match download_next(evs.last()).1 {
            DownloadActionView::WriteChunk(c) => c,
            _ => Seq::empty(),
        }
    }
}

proof fn lemma_stage_before(evs: Seq<DownloadEventView>, i: int)
    requires
        0 <= i < evs.len(),
    ensures
        stage_after(evs.take(i + 1)) == download_next(evs[i]).0,
{
    assert(evs.take(i + 1).last() == evs[i]);
}

/// The steps ask to write exactly the bytes received, in the order received.
pub proof fn law_download_writes_what_it_receives(evs: Seq<DownloadEventView>)
    ensures
        written_bytes(evs) == received_bytes(evs),
    decreases evs.len(),
{
    if evs.len() > 0 {
        law_download_writes_what_it_receives(evs.drop_last());
    }
}

/// The file is created at most once: only the first event of a download
/// leads to creating it.
pub proof fn law_download_creates_file_once(evs: Seq<DownloadEventView>, i: int)
    requires
        valid_run(evs),
        0 <= i < evs.len(),
        download_next(evs[i]).1 is CreateFile,
    ensures
        i == 0,
{
    assert(event_fits(stage_after(evs.take(i)), evs[i]));
    if i > 0 {
        lemma_stage_before(evs, i - 1);
        assert(evs.take(i - 1 + 1) == evs.take(i));
    }
}

/// A download that is over ended well exactly when none of its pieces of
/// work failed; it then ended at the end of the body.
pub proof fn law_download_succeeds_iff_no_step_fails(evs: Seq<DownloadEventView>)
    requires
        valid_run(evs),
        evs.len() > 0,
        stage_after(evs) == DownloadStage::Done,
    ensures
        last_action(evs) is Finish,
        last_action(evs) == DownloadActionView::Finish(Ok(())) <==> forall|i: int| 0 <= i < evs.len() ==> !is_failure(#[trigger] evs[i]),
        last_action(evs) == DownloadActionView::Finish(Ok(())) ==> evs.last() is BodyEnded,
{
    assert forall|i: int| 0 <= i < evs.len() - 1 implies !is_failure(#[trigger] evs[i]) && !(evs[i] is BodyEnded) by {
        lemma_stage_before(evs, i);
        assert(event_fits(stage_after(evs.take(i + 1)), evs[i + 1]));
    }
    if last_action(evs) == DownloadActionView::Finish(Ok(())) {
        assert(!is_failure(evs[evs.len() - 1]));
    } else {
        assert(is_failure(evs[evs.len() - 1]));
    }
}

/// A download that ended well began with the response and the file's
/// creation, and wrote every chunk it received right after receiving it.
pub proof fn law_download_writes_every_chunk(evs: Seq<DownloadEventView>)
    requires
        valid_run(evs),
        evs.len() > 0,
        stage_after(evs) == DownloadStage::Done,
        last_action(evs) == DownloadActionView::Finish(Ok(())),
    ensures
        evs.len() >= 3,
        evs[0] is ResponseArrived,
        evs[1] is FileCreated,
        forall|i: int| 0 <= i < evs.len() && (#[trigger] evs[i]) is ChunkReceived ==> i + 1 < evs.len() && evs[i + 1] is ChunkWritten,
        written_bytes(evs) == received_bytes(evs),
{
    law_download_succeeds_iff_no_step_fails(evs);
    law_download_writes_what_it_receives(evs);
    assert(evs.take(0) =~= Seq::<DownloadEventView>::empty());
    assert(event_fits(stage_after(evs.take(0)), evs[0]));
    assert(!is_failure(evs[0]));
    lemma_stage_before(evs, 0);
    assert(evs.len() > 1);
    assert(event_fits(stage_after(evs.take(1)), evs[1]));
    assert(!is_failure(evs[1]));
    lemma_stage_before(evs, 1);
    assert(evs.len() > 2);
    assert forall|i: int| 0 <= i < evs.len() && (#[trigger] evs[i]) is ChunkReceived implies i + 1 < evs.len() && evs[i + 1] is ChunkWritten by {
        lemma_stage_before(evs, i);
        assert(i + 1 < evs.len());
        assert(event_fits(stage_after(evs.take(i + 1)), evs[i + 1]));
        assert(!is_failure(evs[i + 1]));
    }
}

} // verus!
