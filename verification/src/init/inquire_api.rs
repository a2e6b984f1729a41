//! The questions that can be put to the user, and a stand-in for the user
//! that answers from queues.

use crate::errors::ErrorReport;
use crate::text::concat;
use std::collections::VecDeque;
use vstd::prelude::*;

verus! {

/// Whether the validator accepts a text: called with it, it can answer yes.
pub open spec fn accepted_by<V: Fn(&str) -> Result<bool, String>>(
    validator: V,
    text: Seq<char>,
) -> bool {
    exists|input: &str|
        input@ == text && #[trigger] validator.ensures((input,), Ok::<bool, String>(true))
}

/// The ways to put a question to the user.
pub trait InquireApi {
    /// Prompts the user for text input.
    fn text(&mut self, message: &str, help: Option<&str>) -> Result<String, ErrorReport>;

    /// Prompts the user for text input that the validator accepts: a text
    /// that comes back is one that the validator said yes to.
    fn text_with_validation<V: Fn(&str) -> Result<bool, String>>(
        &mut self,
        message: &str,
        help: Option<&str>,
        validator: V,
        error_message: &str,
    ) -> (answer: Result<String, ErrorReport>)
        requires
            forall|input: &str| validator.requires((input,)),
        ensures
            answer matches Ok(text) ==> accepted_by(validator, text@),
    ;

    /// Prompts the user to select one option from a list, and returns its
    /// index.
    fn select(&mut self, message: &str, options: &[&str], help: Option<&str>) -> Result<
        usize,
        ErrorReport,
    >;

    /// Prompts the user for a yes/no confirmation.
    fn confirm(&mut self, message: &str, default: bool) -> Result<bool, ErrorReport>;

    /// Prompts the user to select any number of options from a list, and
    /// returns their indices.
    fn multiselect(
        &mut self,
        message: &str,
        options: &[&str],
        defaults: &[usize],
        help: Option<&str>,
    ) -> Result<Vec<usize>, ErrorReport>;
}

/// A stand-in for the user that answers each kind of question from a queue of
/// its own, first in, first out, and fails where the queue is empty.
#[derive(Debug)]
pub struct TestInquire {
    text_responses: VecDeque<Result<String, ErrorReport>>,
    select_responses: VecDeque<Result<usize, ErrorReport>>,
    confirm_responses: VecDeque<Result<bool, ErrorReport>>,
    multiselect_responses: VecDeque<Result<Vec<usize>, ErrorReport>>,
}

/// What taking the next response from a queue gives: the front of the queue,
/// or a failure with the message `exhausted` where the queue is empty.
pub open spec fn taken<T>(
    queue: Seq<Result<T, ErrorReport>>,
    exhausted: Seq<char>,
    response: Result<T, ErrorReport>,
) -> bool {
    if queue.len() > 0 {
        response == queue[0]
    } else {
        response matches Err(report) && report.text() == exhausted && report.notes().len() == 0
    }
}

/// The queue that is left after the next response was taken.
pub open spec fn rest<T>(queue: Seq<Result<T, ErrorReport>>) -> Seq<Result<T, ErrorReport>> {
    if queue.len() > 0 {
        queue.subrange(1, queue.len() as int)
    } else {
        queue
    }
}

/// What a validated text prompt gives for the response taken from the queue:
/// the response itself where it is a failure or a text that the validator
/// accepts, and a failure that quotes `error_message` where the validator
/// rejects the text or fails on it.
pub open spec fn validated<V: Fn(&str) -> Result<bool, String>>(
    response: Result<String, ErrorReport>,
    validator: V,
    error_message: Seq<char>,
    result: Result<String, ErrorReport>,
) -> bool {
    match response {
        Err(report) => result == Err::<String, ErrorReport>(report),
        Ok(text) => match result {
            Ok(accepted) => accepted == text && exists|input: &str|
                input@ == text@ && #[trigger] validator.ensures((input,), Ok::<bool, String>(true)),
            Err(report) => {
                &&& report.text() == "Validation failed: "@ + error_message
                &&& exists|input: &str, verdict: Result<bool, String>|
                    input@ == text@ && verdict != Ok::<bool, String>(true)
                        && #[trigger] validator.ensures((input,), verdict)
            },
        },
    }
}

fn next_response<T>(queue: &mut VecDeque<Result<T, ErrorReport>>, exhausted: &str) -> (response:
    Result<T, ErrorReport>)
    ensures
        taken(old(queue)@, exhausted@, response),
        final(queue)@ == rest(old(queue)@),
{
    match queue.pop_front() {
        Some(response) => response,
        None => Err(ErrorReport::msg(exhausted)),
    }
}

impl TestInquire {
    /// The queued responses to text prompts.
    pub closed spec fn texts(&self) -> Seq<Result<String, ErrorReport>> {
        self.text_responses@
    }

    /// The queued responses to selections.
    pub closed spec fn selections(&self) -> Seq<Result<usize, ErrorReport>> {
        self.select_responses@
    }

    /// The queued responses to confirmations.
    pub closed spec fn confirmations(&self) -> Seq<Result<bool, ErrorReport>> {
        self.confirm_responses@
    }

    /// The queued responses to multiple selections.
    pub closed spec fn multiselections(&self) -> Seq<Result<Vec<usize>, ErrorReport>> {
        self.multiselect_responses@
    }

    /// Whether `self` has the queues of `other` but for those named.
    pub open spec fn same_but(
        &self,
        other: &Self,
        texts: bool,
        selections: bool,
        confirmations: bool,
        multiselections: bool,
    ) -> bool {
        &&& texts || self.texts() == other.texts()
        &&& selections || self.selections() == other.selections()
        &&& confirmations || self.confirmations() == other.confirmations()
        &&& multiselections || self.multiselections() == other.multiselections()
    }

    /// Creates a new instance with empty response queues.
    pub fn new() -> (api: Self)
        ensures
            api.texts().len() == 0,
            api.selections().len() == 0,
            api.confirmations().len() == 0,
            api.multiselections().len() == 0,
    {
        TestInquire {
            text_responses: VecDeque::new(),
            select_responses: VecDeque::new(),
            confirm_responses: VecDeque::new(),
            multiselect_responses: VecDeque::new(),
        }
    }

    /// Queues a response to be returned by a later text prompt.
    pub fn queue_text_response(&mut self, response: Result<String, ErrorReport>)
        ensures
            final(self).texts() == old(self).texts().push(response),
            final(self).same_but(old(self), true, false, false, false),
    {
        self.text_responses.push_back(response);
    }

    /// Queues a response to be returned by a later selection.
    pub fn queue_select_response(&mut self, response: Result<usize, ErrorReport>)
        ensures
            final(self).selections() == old(self).selections().push(response),
            final(self).same_but(old(self), false, true, false, false),
    {
        self.select_responses.push_back(response);
    }

    /// Queues a response to be returned by a later confirmation.
    pub fn queue_confirm_response(&mut self, response: Result<bool, ErrorReport>)
        ensures
            final(self).confirmations() == old(self).confirmations().push(response),
            final(self).same_but(old(self), false, false, true, false),
    {
        self.confirm_responses.push_back(response);
    }

    /// Queues a response to be returned by a later multiple selection.
    pub fn queue_multiselect_response(&mut self, response: Result<Vec<usize>, ErrorReport>)
        ensures
            final(self).multiselections() == old(self).multiselections().push(response),
            final(self).same_but(old(self), false, false, false, true),
    {
        self.multiselect_responses.push_back(response);
    }

    /// Queues a text as the answer to a later text prompt.
    pub fn add_text(&mut self, text: &str)
        ensures
            final(self).texts().len() == old(self).texts().len() + 1,
            final(self).texts().drop_last() == old(self).texts(),
            final(self).texts().last() matches Ok(answer) && answer@ == text@,
            final(self).same_but(old(self), true, false, false, false),
    {
        self.queue_text_response(Ok(text.to_owned()));
        assert(self.texts().drop_last() =~= old(self).texts());
    }

    /// Queues an index as the answer to a later selection.
    pub fn add_select(&mut self, idx: usize)
        ensures
            final(self).selections() == old(self).selections().push(Ok(idx)),
            final(self).same_but(old(self), false, true, false, false),
    {
        self.queue_select_response(Ok(idx));
    }

    /// Queues a yes or a no as the answer to a later confirmation.
    pub fn add_confirm(&mut self, value: bool)
        ensures
            final(self).confirmations() == old(self).confirmations().push(Ok(value)),
            final(self).same_but(old(self), false, false, true, false),
    {
        self.queue_confirm_response(Ok(value));
    }

    /// Queues indices as the answer to a later multiple selection.
    pub fn add_multiselect(&mut self, indices: Vec<usize>)
        ensures
            final(self).multiselections() == old(self).multiselections().push(Ok(indices)),
            final(self).same_but(old(self), false, false, false, true),
    {
        self.queue_multiselect_response(Ok(indices));
    }

    fn next_text_response(&mut self) -> (response: Result<String, ErrorReport>)
        ensures
            taken(old(self).texts(), "No more mock text responses"@, response),
            final(self).texts() == rest(old(self).texts()),
            final(self).same_but(old(self), true, false, false, false),
    {
        next_response(&mut self.text_responses, "No more mock text responses")
    }

    fn next_select_response(&mut self) -> (response: Result<usize, ErrorReport>)
        ensures
            taken(old(self).selections(), "No more mock select responses"@, response),
            final(self).selections() == rest(old(self).selections()),
            final(self).same_but(old(self), false, true, false, false),
    {
        next_response(&mut self.select_responses, "No more mock select responses")
    }

    fn next_confirm_response(&mut self) -> (response: Result<bool, ErrorReport>)
        ensures
            taken(old(self).confirmations(), "No more mock confirm responses"@, response),
            final(self).confirmations() == rest(old(self).confirmations()),
            final(self).same_but(old(self), false, false, true, false),
    {
        next_response(&mut self.confirm_responses, "No more mock confirm responses")
    }

    fn next_multiselect_response(&mut self) -> (response: Result<Vec<usize>, ErrorReport>)
        ensures
            taken(old(self).multiselections(), "No more mock multiselect responses"@, response),
            final(self).multiselections() == rest(old(self).multiselections()),
            final(self).same_but(old(self), false, false, false, true),
    {
        next_response(&mut self.multiselect_responses, "No more mock multiselect responses")
    }
}

impl InquireApi for TestInquire {
    fn text(&mut self, message: &str, help: Option<&str>) -> (response: Result<String, ErrorReport>)
        ensures
            taken(old(self).texts(), "No more mock text responses"@, response),
            final(self).texts() == rest(old(self).texts()),
            final(self).same_but(old(self), true, false, false, false),
    {
        self.next_text_response()
    }

    fn text_with_validation<V: Fn(&str) -> Result<bool, String>>(
        &mut self,
        message: &str,
        help: Option<&str>,
        validator: V,
        error_message: &str,
    ) -> (result: Result<String, ErrorReport>)
        ensures
            exists|response: Result<String, ErrorReport>|
                taken(old(self).texts(), "No more mock text responses"@, response) && #[trigger] validated(
                    response,
                    validator,
                    error_message@,
                    result,
                ),
            final(self).texts() == rest(old(self).texts()),
            final(self).same_but(old(self), true, false, false, false),
    {
        let response = self.next_text_response();
        let ghost seen = response;
        match response {
            Err(report) => {
                let result = Err(report);
                assert(validated(seen, validator, error_message@, result));
                result
            },
            Ok(text) => {
                let input = text.as_str();
                let verdict = validator(input);
                let ghost judged = verdict;
                assert(validator.ensures((input,), judged));
                let result = match verdict {
                    Ok(true) => Ok(text),
                    _ => Err(
                        ErrorReport::msg(concat("Validation failed: ", error_message).as_str()),
                    ),
                };
                assert(validated(seen, validator, error_message@, result));
                result
            },
        }
    }

    fn select(&mut self, message: &str, options: &[&str], help: Option<&str>) -> (response: Result<
        usize,
        ErrorReport,
    >)
        ensures
            taken(old(self).selections(), "No more mock select responses"@, response),
            final(self).selections() == rest(old(self).selections()),
            final(self).same_but(old(self), false, true, false, false),
    {
        self.next_select_response()
    }

    fn confirm(&mut self, message: &str, default: bool) -> (response: Result<bool, ErrorReport>)
        ensures
            taken(old(self).confirmations(), "No more mock confirm responses"@, response),
            final(self).confirmations() == rest(old(self).confirmations()),
            final(self).same_but(old(self), false, false, true, false),
    {
        self.next_confirm_response()
    }

    fn multiselect(
        &mut self,
        message: &str,
        options: &[&str],
        defaults: &[usize],
        help: Option<&str>,
    ) -> (response: Result<Vec<usize>, ErrorReport>)
        ensures
            taken(old(self).multiselections(), "No more mock multiselect responses"@, response),
            final(self).multiselections() == rest(old(self).multiselections()),
            final(self).same_but(old(self), false, false, false, true),
    {
        self.next_multiselect_response()
    }
}

} // verus!
