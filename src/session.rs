//! One run of the pipeline as a state machine: for each pass in turn it
//! hands out a request body, and from each reply it makes a labelled section
//! of the report. The driver performs the exchanges and prints the sections.
use vstd::prelude::*;
use vstd::string::*;
use vstd::arithmetic::power2::{lemma2_to64, pow2};
use crate::error::CompletionError;
use crate::request::{request_body, request_text};
use crate::json::json_of;
use crate::response::{
    choice_items, completion_fits, first_content_spec, parse_completion, ChatCompletion,
};

verus! {

/// One question put to the service: the label of its section in the report
/// and the instruction sent with the text.
pub struct Pass {
    pub label: String,
    pub instruction: String,
}

/// The two passes of a run: a summary, then a quiz.
pub fn summary_and_quiz() -> (r: Vec<Pass>)
    ensures
        r@.len() == 2,
        r@[0].label@ == "SUMMARY"@,
        r@[0].instruction@ == "Summarize the following: "@,
        r@[1].label@ == "QUIZ"@,
        r@[1].instruction@ == "Make a 10 item quiz based on the following: "@,
{
    let mut r: Vec<Pass> = Vec::new();
    r.push(
        Pass {
            label: String::from_str("SUMMARY"),
            instruction: String::from_str("Summarize the following: "),
        },
    );
    r.push(
        Pass {
            label: String::from_str("QUIZ"),
            instruction: String::from_str("Make a 10 item quiz based on the following: "),
        },
    );
    r
}

/// A labelled block of the report.
pub struct Section {
    pub label: String,
    pub text: String,
}

impl Section {
    /// The block as printed: two blank lines, the label and a colon, a blank
    /// line, the text, and a blank line.
    pub fn render(&self) -> (r: String)
        ensures
            r@ == "\n\n"@ + self.label@ + ":\n\n"@ + self.text@ + "\n\n"@,
    {
        let mut r = String::from_str("\n\n");
        r.append(self.label.as_str());
        r.append(":\n\n");
        r.append(self.text.as_str());
        r.append("\n\n");
        r
    }
}

/// What the driver does next.
pub enum Step {
    /// Send this request body to the service and hand back its reply.
    Send(String),
    /// Every pass has had its reply.
    Finished,
}

/// The state of a run: the cleaned text, the passes, and how many of them
/// have had their reply.
pub struct Session {
    pub content: String,
    pub passes: Vec<Pass>,
    pub next: usize,
}

impl Session {
    pub open spec fn wf(&self) -> bool {
        self.next <= self.passes@.len()
    }

    /// The request body of pass `i`.
    pub open spec fn request_of(&self, i: int) -> Seq<char> {
        request_text(self.passes@[i].instruction@, self.content@)
    }

    /// A run over `passes` that sends `content` with each of them.
    pub fn new(content: String, passes: Vec<Pass>) -> (r: Session)
        ensures
            r.wf(),
            r.content == content,
            r.passes == passes,
            r.next == 0,
    {
        Session { content, passes, next: 0 }
    }

    /// Whether every pass has had its reply.
    pub fn is_finished(&self) -> (r: bool)
        requires
            self.wf(),
        ensures
            r == (self.next == self.passes@.len()),
    {
        self.next == self.passes.len()
    }

    /// The next step: the request of the first pass without a reply, or
    /// `Finished`.
    pub fn next_step(&self) -> (r: Step)
        requires
            self.wf(),
        ensures
            self.next == self.passes@.len() ==> r == Step::Finished,
            self.next < self.passes@.len() ==> r is Send && r->Send_0@ == self.request_of(
                self.next as int,
            ),
    {
        if self.next == self.passes.len() {
            Step::Finished
        } else {
            let pass = &self.passes[self.next];
            Step::Send(request_body(pass.instruction.as_str(), self.content.as_str()))
        }
    }

    /// Takes the reply to the current pass, already read: on success the
    /// section holds the pass's label and what the first choice says, and
    /// the run moves to the next pass; a reply without choices leaves the
    /// run where it was.
    pub fn accept_completion(&mut self, reply: &ChatCompletion) -> (r: Result<
        Section,
        CompletionError,
    >)
        requires
            old(self).wf(),
            old(self).next < old(self).passes@.len(),
        ensures
            final(self).wf(),
            final(self).content == old(self).content,
            final(self).passes == old(self).passes,
            reply.choices@.len() == 0 ==> r is Err && r->Err_0 == CompletionError::NoChoices
                && final(self).next == old(self).next,
            reply.choices@.len() > 0 ==> r is Ok && r->Ok_0.label@ == old(
                self,
            ).passes@[old(self).next as int].label@ && r->Ok_0.text@
                == reply.choices@[0].message.content@ && final(self).next == old(self).next + 1,
    {
        let text = reply.first_choice_content()?;
        let count = self.passes.len();
        assert(self.next < count);
        let label = self.passes[self.next].label.clone();
        self.next = self.next + 1;
        Ok(Section { label, text })
    }

    /// Takes the body of the reply to the current pass: it is read as a chat
    /// completion, then handled as `accept_completion` says. On any error
    /// the run stays where it was.
    pub fn accept_reply(&mut self, body: &str) -> (r: Result<Section, CompletionError>)
        requires
            old(self).wf(),
            old(self).next < old(self).passes@.len(),
        ensures
            final(self).wf(),
            final(self).content == old(self).content,
            final(self).passes == old(self).passes,
            r is Err ==> final(self).next == old(self).next,
            json_of(body@) is None ==> r == Err::<Section, CompletionError>(
                CompletionError::Malformed,
            ),
            json_of(body@) is Some && !completion_fits(json_of(body@)->0) ==> r == Err::<
                Section,
                CompletionError,
            >(CompletionError::Schema),
            json_of(body@) is Some && completion_fits(json_of(body@)->0) && choice_items(
                json_of(body@)->0,
            )->0.len() == 0 ==> r == Err::<Section, CompletionError>(CompletionError::NoChoices),
            json_of(body@) is Some && completion_fits(json_of(body@)->0) && choice_items(
                json_of(body@)->0,
            )->0.len() > 0 ==> r is Ok && r->Ok_0.label@ == old(self).passes@[old(
                self,
            ).next as int].label@ && r->Ok_0.text@ == first_content_spec(json_of(body@)->0)
                && final(self).next == old(self).next + 1,
    {
        let reply = parse_completion(body)?;
        self.accept_completion(&reply)
    }
}

/// How many times one request is sent again after its send failed in
/// transport.
pub const MAX_RETRIES: u32 = 2;

/// The wait before the first resend; each later resend waits twice as long
/// as the one before.
pub const BASE_DELAY_MS: u64 = 500;

/// How long one exchange may take before it counts as a transport failure.
pub const REQUEST_TIMEOUT_SECS: u64 = 120;

/// After `failures` sends of one request have failed in transport: how long
/// to wait before sending it again, or `None` to give up.
pub fn retry_delay_ms(failures: u32) -> (r: Option<u64>)
    ensures
        failures == 0 ==> r == Some(0u64),
        1 <= failures <= MAX_RETRIES ==> r is Some && r->0 == BASE_DELAY_MS * pow2(
            (failures - 1) as nat,
        ),
        failures > MAX_RETRIES ==> r is None,
{
    if failures > MAX_RETRIES {
        None
    } else if failures == 0 {
        Some(0)
    } else {
        proof {
            lemma2_to64();
        }
        let mut delay: u64 = BASE_DELAY_MS;
        let mut k: u32 = 1;
        while k < failures
            invariant
                1 <= k <= failures <= MAX_RETRIES,
                delay == BASE_DELAY_MS * pow2((k - 1) as nat),
            decreases failures - k,
        {
            proof {
                lemma2_to64();
            }
            delay = delay * 2;
            k = k + 1;
        }
        Some(delay)
    }
}

/// Every pass of a run sends the same text: the requests of any two passes
/// differ at most in their instructions.
pub proof fn lemma_passes_share_content(s: Session, i: int, j: int)
    requires
        0 <= i < s.passes@.len(),
        0 <= j < s.passes@.len(),
    ensures
        exists|quoted_content: Seq<char>|
            s.request_of(i) == crate::request::request_frame(
                crate::request::json_quoted(s.passes@[i].instruction@),
                quoted_content,
            ) && s.request_of(j) == crate::request::request_frame(
                crate::request::json_quoted(s.passes@[j].instruction@),
                quoted_content,
            ),
{
    let q = crate::request::json_quoted(s.content@);
    assert(s.request_of(i) == crate::request::request_frame(
        crate::request::json_quoted(s.passes@[i].instruction@),
        q,
    ));
}

} // verus!
