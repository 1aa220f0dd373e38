//! Confirmation of a pending subscription by the token sent to the subscriber.
//!
//! The workflow talks to two stores that live outside this crate: one maps
//! tokens to subscribers, the other holds each subscriber's status. The
//! functions here make every decision of the workflow; the caller carries out
//! each [`Step`] against the stores and hands the answer back.

use crate::domain::subscriber::SubscriberStatus;
use vstd::prelude::*;

verus! {

/// `uuid::Uuid`, the identifier of a subscriber. The workflow only carries
/// it from one store to the other.
#[verifier::external_type_specification]
#[verifier::external_body]
pub struct ExUuid(uuid::Uuid);

/// The query parameters of a confirmation request.
#[derive(Debug, PartialEq, Eq)]
pub struct Parameters {
    pub subscription_token: String,
}

/// A failure of one of the stores, as the store describes it.
#[derive(Debug, PartialEq, Eq)]
pub struct StorageError {
    pub message: String,
}

/// Why a confirmation failed.
#[derive(Debug, PartialEq, Eq)]
pub enum ConfirmationError {
    /// A store failed; `context` names the operation and `cause` is the
    /// store's own failure.
    UnexpectedError { context: String, cause: StorageError },
    /// No subscriber is associated with the token.
    UnknownToken,
}

/// What the caller has to do next.
#[derive(Debug, PartialEq, Eq)]
pub enum Step {
    /// Ask the token store for the subscriber that the token belongs to.
    GetSubscriberIdFromToken { subscription_token: String },
    /// Ask the subscriber store to mark the subscriber as confirmed.
    ConfirmSubscriber { subscriber_id: uuid::Uuid },
    /// Answer the request.
    Respond { outcome: Result<(), ConfirmationError> },
}

/// What a store answered to the request of a step.
#[derive(Debug, PartialEq, Eq)]
pub enum Answer {
    /// The answer of the token store: the subscriber of the token, if any.
    SubscriberId(Result<Option<uuid::Uuid>, StorageError>),
    /// The answer of the subscriber store to the confirmation.
    Confirmed(Result<(), StorageError>),
}

/// What [`ConfirmationError`] holds.
pub enum ConfirmationErrorView {
    UnexpectedError { context: Seq<char>, cause: Seq<char> },
    UnknownToken,
}

/// What [`Step`] holds.
pub enum StepView {
    GetSubscriberIdFromToken { subscription_token: Seq<char> },
    ConfirmSubscriber { subscriber_id: uuid::Uuid },
    Respond { outcome: Result<(), ConfirmationErrorView> },
}

/// What [`Answer`] holds.
pub enum AnswerView {
    SubscriberId(Result<Option<uuid::Uuid>, Seq<char>>),
    Confirmed(Result<(), Seq<char>>),
}

impl View for StorageError {
    type V = Seq<char>;

    open spec fn view(&self) -> Seq<char> {
        self.message@
    }
}

impl View for ConfirmationError {
    type V = ConfirmationErrorView;

    open spec fn view(&self) -> ConfirmationErrorView {
        match self {
            ConfirmationError::UnexpectedError { context, cause } => {
                ConfirmationErrorView::UnexpectedError { context: context@, cause: cause@ }
            },
            ConfirmationError::UnknownToken => ConfirmationErrorView::UnknownToken,
        }
    }
}

/// What the outcome of a confirmation holds.
pub open spec fn outcome_view(outcome: Result<(), ConfirmationError>) -> Result<
    (),
    ConfirmationErrorView,
> {
    match outcome {
        Ok(done) => Ok(done),
        Err(error) => Err(error@),
    }
}

impl View for Step {
    type V = StepView;

    open spec fn view(&self) -> StepView {
        match self {
            Step::GetSubscriberIdFromToken { subscription_token } => {
                StepView::GetSubscriberIdFromToken { subscription_token: subscription_token@ }
            },
            Step::ConfirmSubscriber { subscriber_id } => StepView::ConfirmSubscriber {
                subscriber_id: *subscriber_id,
            },
            Step::Respond { outcome } => StepView::Respond { outcome: outcome_view(*outcome) },
        }
    }
}

/// What the token store answered.
pub open spec fn found_view(found: Result<Option<uuid::Uuid>, StorageError>) -> Result<
    Option<uuid::Uuid>,
    Seq<char>,
> {
    match found {
        Ok(subscriber_id) => Ok(subscriber_id),
        Err(cause) => Err(cause@),
    }
}

/// What the subscriber store answered.
pub open spec fn updated_view(updated: Result<(), StorageError>) -> Result<(), Seq<char>> {
    match updated {
        Ok(done) => Ok(done),
        Err(cause) => Err(cause@),
    }
}

impl View for Answer {
    type V = AnswerView;

    open spec fn view(&self) -> AnswerView {
        match self {
            Answer::SubscriberId(found) => AnswerView::SubscriberId(found_view(*found)),
            Answer::Confirmed(updated) => AnswerView::Confirmed(updated_view(*updated)),
        }
    }
}

/// The context of a failure to look the token up.
pub open spec fn lookup_context() -> Seq<char> {
    "Failed to retrieve subscriber id from token"@
}

/// The context of a failure to mark the subscriber as confirmed.
pub open spec fn update_context() -> Seq<char> {
    "Failed to confirm subscriber"@
}

/// The message of an unknown token.
pub open spec fn unknown_token_message() -> Seq<char> {
    "There is no subscriber associated with this subscription token"@
}

/// The first step of a confirmation: look the token up.
pub open spec fn first_step(subscription_token: Seq<char>) -> StepView {
    StepView::GetSubscriberIdFromToken { subscription_token }
}

/// The step that follows the answer of the token store: a failure of the
/// store and an unknown token end the workflow, each with its own error; a
/// subscriber that was found is confirmed next.
pub open spec fn step_after_lookup(found: Result<Option<uuid::Uuid>, Seq<char>>) -> StepView {
    match found {
        Err(cause) => StepView::Respond {
            outcome: Err(
                ConfirmationErrorView::UnexpectedError { context: lookup_context(), cause },
            ),
        },
        Ok(None) => StepView::Respond { outcome: Err(ConfirmationErrorView::UnknownToken) },
        Ok(Some(subscriber_id)) => StepView::ConfirmSubscriber { subscriber_id },
    }
}

/// The step that follows the answer of the subscriber store: the workflow
/// ends, with success or with the failure of the store.
pub open spec fn step_after_update(updated: Result<(), Seq<char>>) -> StepView {
    match updated {
        Err(cause) => StepView::Respond {
            outcome: Err(
                ConfirmationErrorView::UnexpectedError { context: update_context(), cause },
            ),
        },
        Ok(done) => StepView::Respond { outcome: Ok(done) },
    }
}

/// The step that follows `step` on `answer`. An answer to a request that
/// the step did not make leaves the step as it is.
pub open spec fn step_after(step: StepView, answer: AnswerView) -> StepView {
    match (step, answer) {
        (StepView::GetSubscriberIdFromToken { .. }, AnswerView::SubscriberId(found)) => {
            step_after_lookup(found)
        },
        (StepView::ConfirmSubscriber { .. }, AnswerView::Confirmed(updated)) => {
            step_after_update(updated)
        },
        _ => step,
    }
}

/// The status code that answers a request with the given outcome.
pub open spec fn status_of(outcome: Result<(), ConfirmationErrorView>) -> u16 {
    match outcome {
        Ok(_) => 200,
        Err(ConfirmationErrorView::UnknownToken) => 401,
        Err(ConfirmationErrorView::UnexpectedError { .. }) => 500,
    }
}

impl ConfirmationError {
    /// The status code of the response that reports the error: unauthorized
    /// for an unknown token, internal server error for everything else.
    pub fn status_code(&self) -> (code: u16)
        ensures
            code == status_of(Err(self@)),
    {
        match self {
            ConfirmationError::UnexpectedError { .. } => 500,
            ConfirmationError::UnknownToken => 401,
        }
    }

    /// The message of the error: for a failure of a store, the operation
    /// that failed, without the store's own words.
    pub fn message(&self) -> (message: String)
        ensures
            message@ == match self@ {
                ConfirmationErrorView::UnexpectedError { context, .. } => context,
                ConfirmationErrorView::UnknownToken => unknown_token_message(),
            },
    {
        match self {
            ConfirmationError::UnexpectedError { context, .. } => context.clone(),
            ConfirmationError::UnknownToken => String::from_str(
                "There is no subscriber associated with this subscription token",
            ),
        }
    }
}

/// Starts the confirmation of the subscriber that the token of the request
/// belongs to.
pub fn confirm(parameters: Parameters) -> (step: Step)
    ensures
        step@ == first_step(parameters.subscription_token@),
{
    Step::GetSubscriberIdFromToken { subscription_token: parameters.subscription_token }
}

/// Goes on with the confirmation once the token store has answered.
pub fn after_lookup(found: Result<Option<uuid::Uuid>, StorageError>) -> (step: Step)
    ensures
        step@ == step_after_lookup(found_view(found)),
{
    match found {
        Err(cause) => Step::Respond {
            outcome: Err(
                ConfirmationError::UnexpectedError {
                    context: String::from_str("Failed to retrieve subscriber id from token"),
                    cause,
                },
            ),
        },
        Ok(None) => Step::Respond { outcome: Err(ConfirmationError::UnknownToken) },
        Ok(Some(subscriber_id)) => Step::ConfirmSubscriber { subscriber_id },
    }
}

/// Ends the confirmation once the subscriber store has answered.
pub fn after_update(updated: Result<(), StorageError>) -> (step: Step)
    ensures
        step@ == step_after_update(updated_view(updated)),
{
    match updated {
        Err(cause) => Step::Respond {
            outcome: Err(
                ConfirmationError::UnexpectedError {
                    context: String::from_str("Failed to confirm subscriber"),
                    cause,
                },
            ),
        },
        Ok(done) => Step::Respond { outcome: Ok(done) },
    }
}

impl Step {
    /// The step that follows this one once a store has answered. An answer
    /// to a request that this step did not make is ignored: the step stays.
    pub fn advance(self, answer: Answer) -> (next: Step)
        ensures
            next@ == step_after(self@, answer@),
    {
        match (self, answer) {
            (Step::GetSubscriberIdFromToken { .. }, Answer::SubscriberId(found)) => {
                after_lookup(found)
            },
            (Step::ConfirmSubscriber { .. }, Answer::Confirmed(updated)) => after_update(updated),
            (step, _) => step,
        }
    }
}

/// The status code of the response to a request with the given outcome:
/// success, unauthorized for an unknown token, internal server error for
/// everything else.
pub fn response_status(outcome: &Result<(), ConfirmationError>) -> (code: u16)
    ensures
        code == status_of(outcome_view(*outcome)),
{
    match outcome {
        Ok(_) => 200,
        Err(error) => error.status_code(),
    }
}

/// The two stores as the workflow sees them: the subscriber of each token,
/// and the status of each subscriber.
pub struct Stores {
    pub tokens: Map<Seq<char>, uuid::Uuid>,
    pub statuses: Map<uuid::Uuid, SubscriberStatus>,
}

impl Stores {
    /// What a healthy token store answers: the subscriber of exactly this
    /// token, or that there is none.
    pub open spec fn find_subscriber_id(self, subscription_token: Seq<char>) -> Option<
        uuid::Uuid,
    > {
        if self.tokens.contains_key(subscription_token) {
            Some(self.tokens[subscription_token])
        } else {
            None
        }
    }

    /// The stores after a healthy subscriber store has marked the subscriber
    /// as confirmed. A subscriber that the store does not hold changes nothing.
    pub open spec fn set_confirmed(self, subscriber_id: uuid::Uuid) -> Stores {
        if self.statuses.contains_key(subscriber_id) {
            Stores {
                tokens: self.tokens,
                statuses: self.statuses.insert(
                    subscriber_id,
                    self.statuses[subscriber_id].after_confirmation(),
                ),
            }
        } else {
            self
        }
    }

    /// The stores after they have carried out `step` without failure, and
    /// the step that the workflow takes on their answer.
    pub open spec fn perform(self, step: StepView) -> (Stores, StepView) {
        match step {
            StepView::GetSubscriberIdFromToken { subscription_token } => (
                self,
                step_after(
                    step,
                    AnswerView::SubscriberId(Ok(self.find_subscriber_id(subscription_token))),
                ),
            ),
            StepView::ConfirmSubscriber { subscriber_id } => (
                self.set_confirmed(subscriber_id),
                step_after(step, AnswerView::Confirmed(Ok(()))),
            ),
            StepView::Respond { .. } => (self, step),
        }
    }

    /// The stores after a whole confirmation with `subscription_token`
    /// against healthy stores, and the last step of the workflow.
    pub open spec fn confirm(self, subscription_token: Seq<char>) -> (Stores, StepView) {
        let (looked_up, second) = self.perform(first_step(subscription_token));
        looked_up.perform(second)
    }
}

/// Marking a subscriber as confirmed a second time changes nothing.
pub proof fn lemma_set_confirmed_is_idempotent(stores: Stores, subscriber_id: uuid::Uuid)
    ensures
        stores.set_confirmed(subscriber_id).set_confirmed(subscriber_id) == stores.set_confirmed(
            subscriber_id,
        ),
{
    let once = stores.set_confirmed(subscriber_id);
    assert(once.set_confirmed(subscriber_id).statuses =~= once.statuses);
}

/// Against healthy stores the workflow ends after at most two requests, with
/// a response.
pub proof fn lemma_confirmation_ends(stores: Stores, subscription_token: Seq<char>)
    ensures
        stores.confirm(subscription_token).1 is Respond,
{
}

/// A token that the token store does not hold is answered with
/// `UnknownToken`, and the stores stay as they are.
pub proof fn lemma_unknown_token_is_rejected(stores: Stores, subscription_token: Seq<char>)
    requires
        !stores.tokens.contains_key(subscription_token),
    ensures
        stores.confirm(subscription_token) == (
            stores,
            StepView::Respond { outcome: Err(ConfirmationErrorView::UnknownToken) },
        ),
{
}

/// A token of a subscriber that waits for the confirmation confirms that
/// subscriber and no other, and is answered with success.
pub proof fn lemma_pending_subscriber_is_confirmed(
    stores: Stores,
    subscription_token: Seq<char>,
    subscriber_id: uuid::Uuid,
)
    requires
        stores.tokens.contains_key(subscription_token),
        stores.tokens[subscription_token] == subscriber_id,
        stores.statuses.contains_key(subscriber_id),
        stores.statuses[subscriber_id] == SubscriberStatus::PendingConfirmation,
    ensures
        stores.confirm(subscription_token).1 == (StepView::Respond { outcome: Ok(()) }),
        stores.confirm(subscription_token).0.tokens == stores.tokens,
        stores.confirm(subscription_token).0.statuses == stores.statuses.insert(
            subscriber_id,
            SubscriberStatus::Confirmed,
        ),
{
}

/// Confirming twice with the token of a subscriber succeeds both times and
/// leaves the subscriber confirmed: the second confirmation changes nothing.
pub proof fn lemma_confirmation_is_idempotent(stores: Stores, subscription_token: Seq<char>)
    requires
        stores.tokens.contains_key(subscription_token),
        stores.statuses.contains_key(stores.tokens[subscription_token]),
    ensures
        ({
            let (once, first) = stores.confirm(subscription_token);
            let (twice, second) = once.confirm(subscription_token);
            &&& first == (StepView::Respond { outcome: Ok(()) })
            &&& second == (StepView::Respond { outcome: Ok(()) })
            &&& once.statuses[stores.tokens[subscription_token]] == SubscriberStatus::Confirmed
            &&& twice == once
        }),
{
    let (once, first) = stores.confirm(subscription_token);
    let (twice, second) = once.confirm(subscription_token);
    assert(twice.statuses =~= once.statuses);
}

/// A confirmation never takes a status back and never adds, removes or
/// reassigns anything: the tokens stay as they are, the same subscribers
/// stay in the store, and a confirmed subscriber stays confirmed.
pub proof fn lemma_confirmation_only_confirms(
    stores: Stores,
    subscription_token: Seq<char>,
    subscriber_id: uuid::Uuid,
)
    ensures
        stores.confirm(subscription_token).0.tokens == stores.tokens,
        stores.confirm(subscription_token).0.statuses.dom() == stores.statuses.dom(),
        stores.statuses.contains_key(subscriber_id) ==> {
            let after = stores.confirm(subscription_token).0.statuses[subscriber_id];
            after == stores.statuses[subscriber_id] || (after == SubscriberStatus::Confirmed
                && stores.find_subscriber_id(subscription_token) == Some(subscriber_id))
        },
{
    let after = stores.confirm(subscription_token).0;
    assert(after.statuses.dom() =~= stores.statuses.dom());
}

/// Two confirmations with the same token that run at the same time, both
/// looking the token up before either marks the subscriber, end as two
/// confirmations one after the other do: with the same responses and the
/// same stores.
pub proof fn lemma_interleaved_confirmations_agree(stores: Stores, subscription_token: Seq<char>)
    ensures
        ({
            let (first_looked_up, first_found) = stores.perform(first_step(subscription_token));
            let (second_looked_up, second_found) = first_looked_up.perform(
                first_step(subscription_token),
            );
            let (first_marked, first_response) = second_looked_up.perform(first_found);
            let (second_marked, second_response) = first_marked.perform(second_found);
            let (once, first_alone) = stores.confirm(subscription_token);
            let (twice, second_alone) = once.confirm(subscription_token);
            &&& first_response == first_alone
            &&& second_response == second_alone
            &&& second_marked == twice
        }),
{
    let (once, first_alone) = stores.confirm(subscription_token);
    let (twice, second_alone) = once.confirm(subscription_token);
    let (first_looked_up, first_found) = stores.perform(first_step(subscription_token));
    let (second_looked_up, second_found) = first_looked_up.perform(first_step(subscription_token));
    let (first_marked, first_response) = second_looked_up.perform(first_found);
    let (second_marked, second_response) = first_marked.perform(second_found);
    assert(second_marked.statuses =~= twice.statuses);
}

} // verus!
