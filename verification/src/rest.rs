//! The coordinator's request contract: the bodies of the requests, the
//! errors an operation can end in, and what each operation answers given
//! what the ceremony state said.

use crate::objects::{
    ContributionFileSignature, ContributionFileSignatureView, ContributionLocator,
    ContributionSignatureLocator, LockedLocators, Task,
};
use crate::text::{decimal, has_prefix, push_decimal, starts_with};
use vstd::prelude::*;
use vstd::string::*;

verus! {

/// The kinds of failure that end a contribution attempt.
#[derive(Clone, Copy, Debug, PartialEq, Eq, Structural)]
pub enum FailureKind {
    /// The coordinator's state machine refused the operation.
    CoordinatorRejected,
    /// The coordinator has no record of the contributor's public key.
    UnknownContributor,
    /// The task is not among the contributor's pending tasks.
    UnknownTask,
    /// The request did not get through, or the answer could not be read.
    TransportFailure,
    /// The computation failed or gave output of unexpected size.
    ComputationFailure,
}

/// A refusal by the coordinator's state machine, with its reason.
#[derive(Debug, PartialEq, Eq)]
pub struct CoordinatorError {
    pub reason: String,
}

/// Why an operation of the coordinator failed.
#[derive(Debug, PartialEq, Eq)]
pub enum ResponseError {
    CoordinatorError(CoordinatorError),
    UnknownContributor(String),
    UnknownTask(Task),
}

/// The mathematical content of a [`ResponseError`].
pub enum ResponseErrorView {
    CoordinatorError(Seq<char>),
    UnknownContributor(Seq<char>),
    UnknownTask(Task),
}

impl View for ResponseError {
    type V = ResponseErrorView;

    open spec fn view(&self) -> ResponseErrorView {
        match self {
            ResponseError::CoordinatorError(e) => ResponseErrorView::CoordinatorError(e.reason@),
            ResponseError::UnknownContributor(key) => ResponseErrorView::UnknownContributor(key@),
            ResponseError::UnknownTask(task) => ResponseErrorView::UnknownTask(*task),
        }
    }
}

/// How a task reads in a message.
pub open spec fn task_text(task: Task) -> Seq<char> {
    "chunk "@ + decimal(task.chunk_id as nat) + ", contribution "@ + decimal(
        task.contribution_id as nat,
    )
}

impl ResponseErrorView {
    /// The text that reports the error to the client.
    pub open spec fn message(self) -> Seq<char> {
        match self {
            ResponseErrorView::CoordinatorError(reason) => "Coordinator failed: "@ + reason,
            ResponseErrorView::UnknownContributor(key) => {
                "Could not find contributor with public key "@ + key
            },
            ResponseErrorView::UnknownTask(task) => "Could not find the provided Task "@
                + task_text(task) + " in coordinator state"@,
        }
    }

    /// The kind of failure the error stands for.
    pub open spec fn kind(self) -> FailureKind {
        match self {
            ResponseErrorView::CoordinatorError(_) => FailureKind::CoordinatorRejected,
            ResponseErrorView::UnknownContributor(_) => FailureKind::UnknownContributor,
            ResponseErrorView::UnknownTask(_) => FailureKind::UnknownTask,
        }
    }
}

/// The status code of every error response.
pub const ERROR_STATUS: u16 = 500;

/// An error as it goes over the wire: the status code, the declared content
/// type and the body.
#[derive(Debug, PartialEq, Eq)]
pub struct ErrorResponse {
    pub status: u16,
    pub content_type: String,
    pub body: String,
}

impl ResponseError {
    /// The kind of failure this error stands for.
    pub fn kind(&self) -> (kind: FailureKind)
        ensures
            kind == self@.kind(),
    {
        match self {
            ResponseError::CoordinatorError(_) => FailureKind::CoordinatorRejected,
            ResponseError::UnknownContributor(_) => FailureKind::UnknownContributor,
            ResponseError::UnknownTask(_) => FailureKind::UnknownTask,
        }
    }

    /// The text that reports this error to the client.
    pub fn message(&self) -> (text: String)
        ensures
            text@ == self@.message(),
    {
        let mut out = String::new();
        match self {
            ResponseError::CoordinatorError(e) => {
                out.append("Coordinator failed: ");
                out.append(e.reason.as_str());
            },
            ResponseError::UnknownContributor(key) => {
                out.append("Could not find contributor with public key ");
                out.append(key.as_str());
            },
            ResponseError::UnknownTask(task) => {
                out.append("Could not find the provided Task ");
                out.append("chunk ");
                push_decimal(&mut out, task.chunk_id);
                out.append(", contribution ");
                push_decimal(&mut out, task.contribution_id);
                out.append(" in coordinator state");
                assert(out@ =~= self@.message());
            },
        }
        out
    }

    /// The response that carries this error: status 500, declared as JSON,
    /// with the error's message as its body.
    pub fn respond_to(self) -> (response: ErrorResponse)
        ensures
            response.status == ERROR_STATUS,
            response.content_type@ == "application/json"@,
            response.body@ == self@.message(),
    {
        let body = self.message();
        let mut content_type = String::new();
        content_type.append("application/json");
        ErrorResponse { status: ERROR_STATUS, content_type, body }
    }
}

/// What a client makes of a response that is not a success. An error
/// response of the coordinator is told apart by how its body begins; a
/// response with any other status is a failure of the transport.
pub open spec fn classified(status: u16, body: Seq<char>) -> FailureKind {
    if status != ERROR_STATUS {
        FailureKind::TransportFailure
    } else if has_prefix(body, "Could not find contributor with public key "@) {
        FailureKind::UnknownContributor
    } else if has_prefix(body, "Could not find the provided Task "@) {
        FailureKind::UnknownTask
    } else {
        FailureKind::CoordinatorRejected
    }
}

/// Classifies a response that is not a success: see [`classified`].
pub fn classify_response(status: u16, body: &str) -> (kind: FailureKind)
    ensures
        kind == classified(status, body@),
{
    if status != ERROR_STATUS {
        FailureKind::TransportFailure
    } else if starts_with(body, "Could not find contributor with public key ") {
        FailureKind::UnknownContributor
    } else if starts_with(body, "Could not find the provided Task ") {
        FailureKind::UnknownTask
    } else {
        FailureKind::CoordinatorRejected
    }
}

/// A client that classifies the response built from an error finds the
/// kind of that error.
pub proof fn lemma_client_recovers_kind(error: ResponseErrorView)
    ensures
        classified(ERROR_STATUS, error.message()) == error.kind(),
{
    reveal_strlit("Coordinator failed: ");
    reveal_strlit("Could not find contributor with public key ");
    reveal_strlit("Could not find the provided Task ");
    let contributor = "Could not find contributor with public key "@;
    let task = "Could not find the provided Task "@;
    let text = error.message();
    match error {
        ResponseErrorView::CoordinatorError(reason) => {
            assert(text[2] == 'o');
            if has_prefix(text, contributor) {
                assert(text.subrange(0, contributor.len() as int)[2] == contributor[2]);
            }
            if has_prefix(text, task) {
                assert(text.subrange(0, task.len() as int)[2] == task[2]);
            }
        },
        ResponseErrorView::UnknownContributor(key) => {
            assert(text.subrange(0, contributor.len() as int) =~= contributor);
        },
        ResponseErrorView::UnknownTask(t) => {
            let rest = task_text(t) + " in coordinator state"@;
            assert(text =~= task + rest);
            assert(text.subrange(0, task.len() as int) =~= task);
            assert(text[15] == 't');
            if has_prefix(text, contributor) {
                assert(text.subrange(0, contributor.len() as int)[15] == contributor[15]);
            }
        },
    }
}

/// The body of the requests that name locked work: who asks, and for what.
#[derive(Debug, PartialEq, Eq)]
pub struct ChunkRequest {
    pub pubkey: String,
    pub locked_locators: LockedLocators,
}

/// The mathematical content of a [`ChunkRequest`].
pub struct ChunkRequestView {
    pub pubkey: Seq<char>,
    pub locked_locators: LockedLocators,
}

impl View for ChunkRequest {
    type V = ChunkRequestView;

    open spec fn view(&self) -> ChunkRequestView {
        ChunkRequestView { pubkey: self.pubkey@, locked_locators: self.locked_locators }
    }
}

/// The body of the request that reports a chunk as contributed.
#[derive(Debug, PartialEq, Eq)]
pub struct ContributeChunkRequest {
    pub pubkey: String,
    pub chunk_id: u64,
}

/// The mathematical content of a [`ContributeChunkRequest`].
pub struct ContributeChunkRequestView {
    pub pubkey: Seq<char>,
    pub chunk_id: u64,
}

impl View for ContributeChunkRequest {
    type V = ContributeChunkRequestView;

    open spec fn view(&self) -> ContributeChunkRequestView {
        ContributeChunkRequestView { pubkey: self.pubkey@, chunk_id: self.chunk_id }
    }
}

/// The body of an upload: the contribution, its signature, and where each
/// of them goes.
#[derive(Debug, PartialEq, Eq)]
pub struct PostChunkRequest {
    pub contribution_locator: ContributionLocator,
    pub contribution: Vec<u8>,
    pub contribution_file_signature_locator: ContributionSignatureLocator,
    pub contribution_file_signature: ContributionFileSignature,
}

/// The mathematical content of a [`PostChunkRequest`].
pub struct PostChunkRequestView {
    pub contribution_locator: ContributionLocator,
    pub contribution: Seq<u8>,
    pub contribution_file_signature_locator: ContributionSignatureLocator,
    pub contribution_file_signature: ContributionFileSignatureView,
}

impl View for PostChunkRequest {
    type V = PostChunkRequestView;

    open spec fn view(&self) -> PostChunkRequestView {
        PostChunkRequestView {
            contribution_locator: self.contribution_locator,
            contribution: self.contribution@,
            contribution_file_signature_locator: self.contribution_file_signature_locator,
            contribution_file_signature: self.contribution_file_signature@,
        }
    }
}

impl Clone for PostChunkRequest {
    fn clone(&self) -> (copy: PostChunkRequest)
        ensures
            copy@ == self@,
    {
        PostChunkRequest {
            contribution_locator: self.contribution_locator,
            contribution: crate::objects::copy_bytes(&self.contribution),
            contribution_file_signature_locator: self.contribution_file_signature_locator,
            contribution_file_signature: self.contribution_file_signature.clone(),
        }
    }
}

impl PostChunkRequest {
    pub fn new(
        contribution_locator: ContributionLocator,
        contribution: Vec<u8>,
        contribution_file_signature_locator: ContributionSignatureLocator,
        contribution_file_signature: ContributionFileSignature,
    ) -> (request: PostChunkRequest)
        ensures
            request.contribution_locator == contribution_locator,
            request.contribution == contribution,
            request.contribution_file_signature_locator == contribution_file_signature_locator,
            request.contribution_file_signature == contribution_file_signature,
    {
        PostChunkRequest {
            contribution_locator,
            contribution,
            contribution_file_signature_locator,
            contribution_file_signature,
        }
    }
}

/// Turns what the ceremony state answered into the operation's answer: a
/// refusal becomes [`ResponseError::CoordinatorError`], anything else goes
/// through.
pub fn coordinator_result<T>(outcome: Result<T, CoordinatorError>) -> (answer: Result<
    T,
    ResponseError,
>)
    ensures
        match outcome {
            Ok(value) => answer == Ok::<T, ResponseError>(value),
            Err(e) => answer == Err::<T, ResponseError>(ResponseError::CoordinatorError(e)),
        },
{
    match outcome {
        Ok(value) => Ok(value),
        Err(e) => Err(ResponseError::CoordinatorError(e)),
    }
}

/// Answers a request to join the queue, given whether the ceremony state
/// took the contributor in.
pub fn join_queue(added: Result<(), CoordinatorError>) -> (answer: Result<(), ResponseError>)
    ensures
        match added {
            Ok(_) => answer is Ok,
            Err(e) => answer == Err::<(), ResponseError>(ResponseError::CoordinatorError(e)),
        },
{
    coordinator_result(added)
}

/// Answers a request to lock the next chunk, given the chunk and the
/// locators that the ceremony state granted: the locators go to the
/// contributor.
pub fn lock_chunk(locked: Result<(u64, LockedLocators), CoordinatorError>) -> (answer: Result<
    LockedLocators,
    ResponseError,
>)
    ensures
        match locked {
            Ok((_, locators)) => answer == Ok::<LockedLocators, ResponseError>(locators),
            Err(e) => answer == Err::<LockedLocators, ResponseError>(
                ResponseError::CoordinatorError(e),
            ),
        },
{
    match locked {
        Ok((_, locators)) => Ok(locators),
        Err(e) => Err(ResponseError::CoordinatorError(e)),
    }
}

/// What the coordinator answers to a request for the task of locked work,
/// given the contributor's pending tasks (`None` where the contributor is
/// not known): the task that the locators stand for where it is pending.
pub open spec fn chunk_answer(request: ChunkRequestView, pending: Option<Seq<Task>>) -> Result<
    Task,
    ResponseErrorView,
> {
    let task = request.locked_locators.spec_task();
    match pending {
        Some(tasks) => if tasks.contains(task) {
            Ok(task)
        } else {
            Err(ResponseErrorView::UnknownTask(task))
        },
        None => Err(ResponseErrorView::UnknownContributor(request.pubkey)),
    }
}

/// The content of the answer to a request.
pub open spec fn answer_view<T>(answer: Result<T, ResponseError>) -> Result<T, ResponseErrorView> {
    match answer {
        Ok(value) => Ok(value),
        Err(e) => Err(e@),
    }
}

/// The tasks of an optional list.
pub open spec fn tasks_of(pending: Option<&Vec<Task>>) -> Option<Seq<Task>> {
    match pending {
        Some(tasks) => Some(tasks@),
        None => None,
    }
}

/// Answers a request for the task of locked work: see [`chunk_answer`].
pub fn get_chunk(request: ChunkRequest, pending: Option<&Vec<Task>>) -> (answer: Result<
    Task,
    ResponseError,
>)
    ensures
        answer_view(answer) == chunk_answer(request@, tasks_of(pending)),
{
    let next = request.locked_locators.next_contribution();
    let task = Task::new(next.chunk_id(), next.contribution_id());
    match pending {
        Some(tasks) => {
            if !task.is_in(tasks) {
                return Err(ResponseError::UnknownTask(task));
            }
            Ok(task)
        },
        None => Err(ResponseError::UnknownContributor(request.pubkey)),
    }
}

/// The steps of storing an upload: the contribution first, its signature
/// only once the contribution is stored.
#[derive(Debug, PartialEq, Eq)]
pub enum UploadStep {
    /// The contribution is to be written at its locator.
    WriteContribution(PostChunkRequest),
    /// The signature is to be written at its locator.
    WriteSignature(ContributionSignatureLocator, ContributionFileSignature),
    /// The upload is answered.
    Answered(Result<(), ResponseError>),
}

/// Begins to store an upload: the contribution is written first.
pub fn post_contribution_chunk(request: PostChunkRequest) -> (step: UploadStep)
    ensures
        step == UploadStep::WriteContribution(request),
{
    UploadStep::WriteContribution(request)
}

impl UploadStep {
    /// The step that follows once the ceremony state has said how the write
    /// went. A refused write ends the upload with the refusal; after the
    /// contribution comes the signature, after the signature success. An
    /// upload that is answered stays as it is.
    pub fn written(self, outcome: Result<(), CoordinatorError>) -> (step: UploadStep)
        ensures
            match (self, outcome) {
                (UploadStep::Answered(answer), _) => step == UploadStep::Answered(answer),
                (_, Err(e)) => step == UploadStep::Answered(
                    Err(ResponseError::CoordinatorError(e)),
                ),
                (UploadStep::WriteContribution(request), Ok(_)) => step
                    == UploadStep::WriteSignature(
                    request.contribution_file_signature_locator,
                    request.contribution_file_signature,
                ),
                (UploadStep::WriteSignature(_, _), Ok(_)) => step == UploadStep::Answered(Ok(())),
            },
    {
        match self {
            UploadStep::Answered(answer) => UploadStep::Answered(answer),
            UploadStep::WriteContribution(request) => match outcome {
                Ok(_) => UploadStep::WriteSignature(
                    request.contribution_file_signature_locator,
                    request.contribution_file_signature,
                ),
                Err(e) => UploadStep::Answered(Err(ResponseError::CoordinatorError(e))),
            },
            UploadStep::WriteSignature(_, _) => match outcome {
                Ok(_) => UploadStep::Answered(Ok(())),
                Err(e) => UploadStep::Answered(Err(ResponseError::CoordinatorError(e))),
            },
        }
    }
}

/// Answers a notice that a chunk is contributed, given the locator that
/// the ceremony state recorded for it.
pub fn contribute_chunk(contributed: Result<ContributionLocator, CoordinatorError>) -> (answer:
    Result<ContributionLocator, ResponseError>)
    ensures
        match contributed {
            Ok(locator) => answer == Ok::<ContributionLocator, ResponseError>(locator),
            Err(e) => answer == Err::<ContributionLocator, ResponseError>(
                ResponseError::CoordinatorError(e),
            ),
        },
{
    coordinator_result(contributed)
}

/// Answers a request to refresh the ceremony state.
pub fn update_coordinator(updated: Result<(), CoordinatorError>) -> (answer: Result<
    (),
    ResponseError,
>)
    ensures
        match updated {
            Ok(_) => answer is Ok,
            Err(e) => answer == Err::<(), ResponseError>(ResponseError::CoordinatorError(e)),
        },
{
    coordinator_result(updated)
}

/// Answers a heartbeat, given whether the ceremony state knows the
/// contributor as live.
pub fn heartbeat(noted: Result<(), CoordinatorError>) -> (answer: Result<(), ResponseError>)
    ensures
        match noted {
            Ok(_) => answer is Ok,
            Err(e) => answer == Err::<(), ResponseError>(ResponseError::CoordinatorError(e)),
        },
{
    coordinator_result(noted)
}

/// Answers a request for the tasks a contributor has left: its pending
/// tasks in order, or that the contributor is not known.
pub fn get_tasks_left(pubkey: String, pending: Option<&Vec<Task>>) -> (answer: Result<
    Vec<Task>,
    ResponseError,
>)
    ensures
        match pending {
            Some(tasks) => answer is Ok && answer->Ok_0@ == tasks@,
            None => answer is Err && answer->Err_0@ == ResponseErrorView::UnknownContributor(
                pubkey@,
            ),
        },
{
    match pending {
        Some(tasks) => {
            let mut left: Vec<Task> = Vec::new();
            let mut i: usize = 0;
            while i < tasks.len()
                invariant
                    i <= tasks.len(),
                    left@ == tasks@.take(i as int),
                decreases tasks.len() - i,
            {
                left.push(tasks[i]);
                i += 1;
                assert(tasks@.take(i as int) =~= tasks@.take(i - 1).push(tasks@[i - 1]));
            }
            assert(tasks@.take(i as int) =~= tasks@);
            Ok(left)
        },
        None => Err(ResponseError::UnknownContributor(pubkey)),
    }
}

} // verus!
