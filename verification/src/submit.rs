//! Submitting credentials: what goes into each slot, what the session's
//! answers mean, and what is kept for another try.
use vstd::prelude::*;
use vstd::string::*;

use crate::keyed::StringMap;
use crate::notify::{plain_toast, show_error_notification, Toast};
use crate::protocol::ATTENTION_CREDENTIALS;
use crate::search::{first_index, lemma_first_index};
use crate::slots::Slot;
use crate::text::{
    chars_of, contains, has_substring, law_part_occurs_in_the_whole, occurs_at, opt_text, same,
};

verus! {

/// Control characters: the Unicode category Cc.
pub open spec fn is_control(c: char) -> bool {
    c as u32 <= 0x1f || 0x7f <= c as u32 <= 0x9f
}

pub open spec fn sanitized(s: Seq<char>) -> Seq<char> {
    Seq::new(
        s.len(),
        |i: int|
            if is_control(s[i]) {
                '?'
            } else {
                s[i]
            },
    )
}

/// The text with every control character replaced by a question mark, so that
/// it cannot break out of its log line.
pub fn sanitize_for_log(s: &str) -> (r: String)
    ensures
        r@ == sanitized(s@),
{
    let cs = chars_of(s);
    let mut out = String::new();
    let mut i: usize = 0;
    while i < cs.len()
        invariant
            i <= cs.len(),
            cs@ == s@,
            out@ == sanitized(s@).take(i as int),
        decreases cs.len() - i,
    {
        let c = cs[i];
        let n: u32 = c as u32;
        if n <= 0x1f || 0x7f <= n && n <= 0x9f {
            out.push('?');
        } else {
            out.push(c);
        }
        i = i + 1;
        assert(out@ =~= sanitized(s@).take(i as int));
    }
    assert(sanitized(s@).take(i as int) =~= sanitized(s@));
    out
}

/// A sanitized text has no control characters, and sanitizing it again changes
/// nothing.
pub proof fn law_sanitized_text_is_clean(s: Seq<char>)
    ensures
        forall|i: int| 0 <= i < sanitized(s).len() ==> !is_control(#[trigger] sanitized(s)[i]),
        sanitized(sanitized(s)) == sanitized(s),
        sanitized(s).len() == s.len(),
{
    assert(!is_control('?'));
    assert(sanitized(sanitized(s)) =~= sanitized(s));
}

/// The value was entered under this label.
pub open spec fn entered_under(label: Seq<char>) -> spec_fn((String, String)) -> bool {
    |v: (String, String)| v.0@ == label
}

/// The value that was entered under this label, empty if none was.
pub open spec fn value_for(values: Seq<(String, String)>, label: Seq<char>) -> Seq<char> {
    let i = first_index(values, entered_under(label));
    if i < values.len() {
        values[i].1@
    } else {
        Seq::empty()
    }
}

fn find_value(values: &[(String, String)], label: &str) -> (r: String)
    ensures
        r@ == value_for(values@, label@),
{
    let mut i: usize = 0;
    while i < values.len()
        invariant
            i <= values.len(),
            forall|j: int| 0 <= j < i ==> !entered_under(label@)(#[trigger] values@[j]),
        decreases values.len() - i,
    {
        if same(values[i].0.as_str(), label) {
            proof {
                lemma_first_index(values@, entered_under(label@), i as int);
            }
            return values[i].1.clone();
        }
        i = i + 1;
    }
    proof {
        lemma_first_index(values@, entered_under(label@), i as int);
    }
    let r = String::new();
    assert(r@ =~= Seq::empty());
    r
}

/// Some slot has no value.
pub open spec fn incomplete(slots: Seq<Slot>, values: Seq<(String, String)>) -> bool {
    exists|i: int|
        0 <= i < slots.len() && value_for(values, (#[trigger] slots[i]).3@).len() == 0
}

/// What is put into one slot.
#[derive(Debug)]
pub struct SlotInput {
    pub attention_type: u32,
    pub group: u32,
    pub id: u32,
    pub value: String,
}

/// The values for all slots, in their order, or nothing if a slot has no
/// value; the dialog is then shown again, and no slot is used up.
pub fn submit_credentials(slots: &[Slot], values: &[(String, String)]) -> (r: Option<
    Vec<SlotInput>,
>)
    ensures
        r is None == incomplete(slots@, values@),
        r is Some ==> r->0@.len() == slots@.len() && forall|i: int|
            0 <= i < slots@.len() ==> {
                let s = slots@[i];
                let input = #[trigger] r->0@[i];
                &&& input.attention_type == s.0
                &&& input.group == s.1
                &&& input.id == s.2
                &&& input.value@ == value_for(values@, s.3@)
                &&& input.value@.len() > 0
            },
{
    let mut out: Vec<SlotInput> = Vec::new();
    let mut i: usize = 0;
    while i < slots.len()
        invariant
            i <= slots.len(),
            out.len() == i,
            forall|j: int| 0 <= j < i ==> value_for(values@, (#[trigger] slots@[j]).3@).len() > 0,
            forall|j: int|
                0 <= j < i ==> {
                    let s = slots@[j];
                    let input = #[trigger] out@[j];
                    &&& input.attention_type == s.0
                    &&& input.group == s.1
                    &&& input.id == s.2
                    &&& input.value@ == value_for(values@, s.3@)
                    &&& input.value@.len() > 0
                },
        decreases slots.len() - i,
    {
        let value = find_value(values, slots[i].3.as_str());
        if value.as_str().is_empty() {
            assert(value_for(values@, slots@[i as int].3@).len() == 0);
            return None;
        }
        out.push(
            SlotInput {
                attention_type: slots[i].0,
                group: slots[i].1,
                id: slots[i].2,
                value,
            },
        );
        i = i + 1;
    }
    Some(out)
}

/// What follows when a session refuses the value for a slot.
#[derive(Clone, Copy, Debug, PartialEq, Eq, Structural)]
pub enum ProvideStep {
    /// The slot has its value already: go on with the next.
    Skip,
    /// The session has a new queue: ask it again.
    QueueReset,
    /// The submission has failed.
    Fail,
}

pub open spec fn provide_step(detail: Option<Seq<char>>) -> ProvideStep {
    match detail {
        Some(d) => if has_substring(d, "already-provided"@) {
            ProvideStep::Skip
        } else if has_substring(d, "User input not required"@) {
            ProvideStep::QueueReset
        } else {
            ProvideStep::Fail
        },
        None => ProvideStep::Fail,
    }
}

/// What follows when a session refuses the value for a slot. `detail` is the
/// text of the refusal, nothing if the error is not the session's own.
pub fn after_provide_error(detail: &Option<String>) -> (r: ProvideStep)
    ensures
        r == provide_step(opt_text(*detail)),
{
    match detail {
        Some(d) => if contains(d.as_str(), "already-provided") {
            ProvideStep::Skip
        } else if contains(d.as_str(), "User input not required") {
            ProvideStep::QueueReset
        } else {
            ProvideStep::Fail
        },
        None => ProvideStep::Fail,
    }
}

/// How far a submission has come.
#[derive(Clone, Copy, Debug, PartialEq, Eq, Structural)]
pub enum SubmitStage {
    /// The value for the slot at this position is being handed over.
    Slot(usize),
    /// The session is being asked whether it is ready.
    Ready,
    /// The session is being told to connect.
    Connect,
}

/// What the session answered.
#[derive(Debug)]
pub enum SubmitReply {
    Done,
    /// The session, or the bus, refused; the text is the session's own.
    Refused(Option<String>),
}

/// What follows an answer.
#[derive(Clone, Copy, Debug, PartialEq, Eq, Structural)]
pub enum SubmitStep {
    Next(SubmitStage),
    /// All slots have their value.
    Complete,
    /// The session has a new queue.
    QueueReset,
    /// The submission has failed.
    Fail,
}

/// What comes after the slots before `at`, of `count` slots.
pub open spec fn slot_or_ready(at: int, count: int) -> SubmitStage {
    if at < count {
        SubmitStage::Slot(at as usize)
    } else {
        SubmitStage::Ready
    }
}

pub open spec fn submit_step(stage: SubmitStage, reply: SubmitReply, count: usize) -> SubmitStep {
    match (stage, reply) {
        (SubmitStage::Slot(i), SubmitReply::Done) => SubmitStep::Next(
            slot_or_ready(i + 1, count as int),
        ),
        (SubmitStage::Slot(i), SubmitReply::Refused(detail)) => match provide_step(
            opt_text(detail),
        ) {
            ProvideStep::Skip => SubmitStep::Next(slot_or_ready(i + 1, count as int)),
            ProvideStep::QueueReset => SubmitStep::QueueReset,
            ProvideStep::Fail => SubmitStep::Fail,
        },
        (SubmitStage::Ready, SubmitReply::Done) => SubmitStep::Next(SubmitStage::Connect),
        (SubmitStage::Ready, SubmitReply::Refused(_)) => SubmitStep::Complete,
        (SubmitStage::Connect, SubmitReply::Done) => SubmitStep::Complete,
        (SubmitStage::Connect, SubmitReply::Refused(_)) => SubmitStep::Fail,
    }
}

/// Where the submission of `count` values begins.
pub fn begin_submit(count: usize) -> (r: SubmitStage)
    ensures
        r == slot_or_ready(0, count as int),
{
    if count > 0 {
        SubmitStage::Slot(0)
    } else {
        SubmitStage::Ready
    }
}

/// Goes on with a submission of `count` values: each slot in its order, then
/// the session is asked whether it is ready, and told to connect. A session
/// that is not ready yet may want more input, which it will ask for.
pub fn continue_submit(stage: SubmitStage, reply: &SubmitReply, count: usize) -> (r: SubmitStep)
    requires
        stage matches SubmitStage::Slot(i) ==> i < count,
    ensures
        r == submit_step(stage, *reply, count),
{
    match stage {
        SubmitStage::Slot(i) => {
            let next = if i + 1 < count {
                SubmitStage::Slot(i + 1)
            } else {
                SubmitStage::Ready
            };
            match reply {
                SubmitReply::Done => SubmitStep::Next(next),
                SubmitReply::Refused(detail) => match after_provide_error(detail) {
                    ProvideStep::Skip => SubmitStep::Next(next),
                    ProvideStep::QueueReset => SubmitStep::QueueReset,
                    ProvideStep::Fail => SubmitStep::Fail,
                },
            }
        },
        SubmitStage::Ready => match reply {
            SubmitReply::Done => SubmitStep::Next(SubmitStage::Connect),
            SubmitReply::Refused(_) => SubmitStep::Complete,
        },
        SubmitStage::Connect => match reply {
            SubmitReply::Done => SubmitStep::Complete,
            SubmitReply::Refused(_) => SubmitStep::Fail,
        },
    }
}

/// The stage that a run of answers leads to, if none of them ends it.
pub open spec fn stage_after(replies: Seq<SubmitReply>, count: usize) -> Option<SubmitStage>
    decreases replies.len(),
{
    if replies.len() == 0 {
        Some(slot_or_ready(0, count as int))
    } else {
        match stage_after(replies.drop_last(), count) {
            Some(stage) => match submit_step(stage, replies.last(), count) {
                SubmitStep::Next(next) => Some(next),
                _ => None,
            },
            None => None,
        }
    }
}

/// A session is only asked whether it is ready after every slot has been
/// handled, each once and in order.
pub proof fn law_every_slot_comes_before_ready(replies: Seq<SubmitReply>, count: usize)
    ensures
        match stage_after(replies, count) {
            Some(SubmitStage::Slot(i)) => i == replies.len() && i < count,
            Some(SubmitStage::Ready) => replies.len() == count,
            Some(SubmitStage::Connect) => replies.len() == count + 1,
            None => true,
        },
    decreases replies.len(),
{
    if replies.len() > 0 {
        law_every_slot_comes_before_ready(replies.drop_last(), count);
    }
}

/// How a submission ended.
#[derive(Debug)]
pub enum SubmitOutcome {
    /// All slots have their value.
    Complete,
    /// A slot has none.
    Incomplete,
    /// It failed; the error's text.
    Failed(String),
}

/// What follows a submission.
#[derive(Debug)]
pub enum AfterSubmit {
    /// Store the values that may be kept.
    Save,
    /// Delete them.
    Delete,
    /// Show the dialog again, with the values so far.
    ShowAgain,
    /// Ask the session for its slots again.
    AskAgain,
    /// Tell that it failed.
    Notify(Toast),
}

pub open spec fn rejected_toast(config_name: Seq<char>) -> Toast<Seq<char>> {
    plain_toast(
        "Authentication Failed"@,
        "Server rejected credentials for '"@ + config_name + "'."@,
        2,
    )
}

/// What follows a submission.
pub open spec fn is_answer_to(
    answer: AfterSubmit,
    outcome: SubmitOutcome,
    remember: bool,
    config_name: Seq<char>,
) -> bool {
    match outcome {
        SubmitOutcome::Complete => if remember {
            answer is Save
        } else {
            answer is Delete
        },
        SubmitOutcome::Incomplete => answer is ShowAgain,
        SubmitOutcome::Failed(e) => if has_substring(e@, "User input not required"@) {
            answer is AskAgain
        } else {
            answer is Notify && answer->Notify_0@ == rejected_toast(config_name)
        },
    }
}

/// What follows a submission.
pub fn handle_submit_outcome(outcome: &SubmitOutcome, remember: bool, config_name: &str) -> (r:
    AfterSubmit)
    ensures
        match *outcome {
            SubmitOutcome::Complete => if remember {
                r is Save
            } else {
                r is Delete
            },
            SubmitOutcome::Incomplete => r is ShowAgain,
            SubmitOutcome::Failed(e) => if has_substring(e@, "User input not required"@) {
                r is AskAgain
            } else {
                r is Notify && r->Notify_0@ == rejected_toast(config_name@)
            },
        },
        is_answer_to(r, *outcome, remember, config_name@),
{
    match outcome {
        SubmitOutcome::Complete => if remember {
            AfterSubmit::Save
        } else {
            AfterSubmit::Delete
        },
        SubmitOutcome::Incomplete => AfterSubmit::ShowAgain,
        SubmitOutcome::Failed(e) => if contains(e.as_str(), "User input not required") {
            AfterSubmit::AskAgain
        } else {
            let mut body = "Server rejected credentials for '".to_owned();
            body.append(config_name);
            body.append("'.");
            AfterSubmit::Notify(show_error_notification("Authentication Failed", body.as_str()))
        },
    }
}

/// The known values with the entered ones put over them; empty entries are
/// left out.
pub open spec fn merged(
    known: Map<Seq<char>, String>,
    values: Seq<(String, String)>,
) -> Map<Seq<char>, String>
    decreases values.len(),
{
    if values.len() == 0 {
        known
    } else if values.last().1@.len() > 0 {
        merged(known, values.drop_last()).insert(values.last().0@, values.last().1)
    } else {
        merged(known, values.drop_last())
    }
}

/// Puts the entered values over the known ones, for another try.
pub fn merge_values(known: &mut StringMap<String>, values: &[(String, String)])
    ensures
        final(known)@ == merged(old(known)@, values@),
{
    let mut i: usize = 0;
    assert(values@.take(0) =~= Seq::empty());
    while i < values.len()
        invariant
            i <= values.len(),
            known@ == merged(old(known)@, values@.take(i as int)),
        decreases values.len() - i,
    {
        assert(values@.take(i as int + 1).drop_last() =~= values@.take(i as int));
        if !values[i].1.as_str().is_empty() {
            known.insert(values[i].0.clone(), values[i].1.clone());
        }
        i = i + 1;
    }
    assert(values@.take(i as int) =~= values@);
}

/// Nothing that was known is lost by another try, and an entry that was left
/// empty does not replace what was known.
pub proof fn law_merging_loses_nothing(
    known: Map<Seq<char>, String>,
    values: Seq<(String, String)>,
    label: Seq<char>,
)
    ensures
        known.contains_key(label) ==> merged(known, values).contains_key(label),
        (forall|i: int|
            0 <= i < values.len() ==> (#[trigger] values[i]).0@ != label || values[i].1@.len()
                == 0) ==> merged(known, values).contains_key(label) == known.contains_key(label)
            && (known.contains_key(label) ==> merged(known, values)[label] == known[label]),
    decreases values.len(),
{
    if values.len() > 0 {
        law_merging_loses_nothing(known, values.drop_last(), label);
        if forall|i: int|
            0 <= i < values.len() ==> (#[trigger] values[i]).0@ != label || values[i].1@.len()
                == 0 {
            assert forall|i: int| 0 <= i < values.drop_last().len() implies (
            #[trigger] values.drop_last()[i]).0@ != label || values.drop_last()[i].1@.len()
                == 0 by {
                assert(values.drop_last()[i] == values[i]);
            }
            assert(values[values.len() - 1] == values.last());
        }
    }
}

pub open spec fn unlock_hint(locked: bool) -> Seq<char> {
    if locked {
        "Keyring is locked. Enter credentials manually."@
    } else {
        "Could not unlock the keyring. Enter credentials manually."@
    }
}

/// What the user is told when the keyring could not be unlocked.
pub fn keyring_unlock_hint(locked: bool) -> (r: &'static str)
    ensures
        r@ == unlock_hint(locked),
{
    if locked {
        "Keyring is locked. Enter credentials manually."
    } else {
        "Could not unlock the keyring. Enter credentials manually."
    }
}

pub open spec fn save_hint(locked: bool) -> Seq<char> {
    if locked {
        "Keyring is locked — credentials could not be saved."@
    } else {
        "Could not save credentials to the keyring."@
    }
}

/// What the user is told when credentials could not be saved.
pub fn save_failure_hint(locked: bool) -> (r: &'static str)
    ensures
        r@ == save_hint(locked),
{
    if locked {
        "Keyring is locked — credentials could not be saved."
    } else {
        "Could not save credentials to the keyring."
    }
}

/// The notification when stored values cannot be read: the keyring did not
/// open, or it opened and stayed locked.
pub fn keyring_unavailable_notice(opened: bool, locked: bool) -> (r: Toast)
    ensures
        r@ == plain_toast(
            "Saved Credentials Unavailable"@,
            if opened {
                unlock_hint(locked)
            } else {
                "Could not open the keyring. Enter credentials manually."@
            },
            2,
        ),
{
    if opened {
        show_error_notification("Saved Credentials Unavailable", keyring_unlock_hint(locked))
    } else {
        show_error_notification(
            "Saved Credentials Unavailable",
            "Could not open the keyring. Enter credentials manually.",
        )
    }
}

/// What is told when the dialog is cancelled and the session disconnected:
/// title and text.
pub fn cancel_message(config_name: &str) -> (r: (String, String))
    ensures
        r.0@ == "Connection Cancelled"@,
        r.1@ == "Authentication cancelled for '"@ + config_name@ + "'. Session disconnected."@,
{
    let mut text = "Authentication cancelled for '".to_owned();
    text.append(config_name);
    text.append("'. Session disconnected.");
    ("Connection Cancelled".to_owned(), text)
}

/// Whether the slots of this attention type are fields of the dialog.
pub fn is_credential_slot(attention_type: u32) -> (r: bool)
    ensures
        r == (attention_type == ATTENTION_CREDENTIALS),
{
    attention_type == ATTENTION_CREDENTIALS
}

/// The notification about a failed save. Of one submission only the first
/// failure is told.
pub fn save_failure_notice(locked: bool, already_told: &mut bool) -> (r: Option<Toast>)
    ensures
        *final(already_told),
        *old(already_told) ==> r is None,
        !*old(already_told) ==> r is Some && r->0@ == plain_toast(
            "Credential Save Failed"@,
            save_hint(locked),
            2,
        ),
{
    if *already_told {
        None
    } else {
        *already_told = true;
        Some(show_error_notification("Credential Save Failed", save_failure_hint(locked)))
    }
}

/// Each control character is shown as a question mark and every other one as
/// it is.
pub proof fn law_sanitizing_by_character(s: Seq<char>, i: int)
    requires
        0 <= i < s.len(),
    ensures
        (s[i] as u32) < 32 || 127 <= s[i] as u32 <= 159 ==> sanitized(s)[i] == '?',
        32 <= s[i] as u32 <= 126 || s[i] as u32 >= 160 ==> sanitized(s)[i] == s[i],
{
}

/// The value for a label is the first that was entered under it, and empty if
/// none was.
pub proof fn law_first_entry_counts(values: Seq<(String, String)>, label: Seq<char>, i: int)
    requires
        0 <= i <= values.len(),
        i < values.len() ==> values[i].0@ == label,
        forall|j: int| 0 <= j < i ==> (#[trigger] values[j]).0@ != label,
    ensures
        i < values.len() ==> value_for(values, label) == values[i].1@,
        i == values.len() ==> value_for(values, label).len() == 0,
{
    assert forall|j: int| 0 <= j < i implies !entered_under(label)(#[trigger] values[j]) by {
        assert(values[j].0@ != label);
    }
    lemma_first_index(values, entered_under(label), i);
}

/// One slot without a value is enough for nothing to be submitted, and only
/// that is.
pub proof fn law_every_slot_needs_a_value(slots: Seq<Slot>, values: Seq<(String, String)>, i: int)
    requires
        0 <= i < slots.len(),
    ensures
        value_for(values, slots[i].3@).len() == 0 ==> incomplete(slots, values),
        incomplete(slots, values) ==> exists|j: int|
            0 <= j < slots.len() && value_for(values, (#[trigger] slots[j]).3@).len() == 0,
{
}

/// A refusal means that the slot has its value, or that there is a new queue,
/// by the words in it, wherever they stand; any other refusal is a failure.
pub proof fn law_refusals_by_their_words(before: Seq<char>, after: Seq<char>)
    ensures
        provide_step(Some(before + "already-provided"@ + after)) == ProvideStep::Skip,
        !has_substring(before + "User input not required"@ + after, "already-provided"@)
            ==> provide_step(Some(before + "User input not required"@ + after))
            == ProvideStep::QueueReset,
        !has_substring(before, "already-provided"@) && !has_substring(
            before,
            "User input not required"@,
        ) ==> provide_step(Some(before)) == ProvideStep::Fail,
        provide_step(None) == ProvideStep::Fail,
{
    law_part_occurs_in_the_whole(before, "already-provided"@, after);
    law_part_occurs_in_the_whole(before, "User input not required"@, after);
}

/// What follows each answer: a slot that is done, or was done before, leads to
/// the next, and the last to the question whether the session is ready; a
/// ready session is told to connect, and one that is not is left alone.
pub proof fn law_steps_of_a_submission(i: usize, count: usize, detail: Option<String>)
    requires
        i < count,
    ensures
        ({
            let next = if i + 1 < count {
                SubmitStage::Slot((i + 1) as usize)
            } else {
                SubmitStage::Ready
            };
            let refused = SubmitReply::Refused(detail);
            let skips = detail is Some && has_substring(detail->0@, "already-provided"@);
            let resets = detail is Some && has_substring(detail->0@, "User input not required"@);
            &&& submit_step(SubmitStage::Slot(i), SubmitReply::Done, count) == SubmitStep::Next(
                next,
            )
            &&& skips ==> submit_step(SubmitStage::Slot(i), refused, count) == SubmitStep::Next(
                next,
            )
            &&& !skips && resets ==> submit_step(SubmitStage::Slot(i), refused, count)
                == SubmitStep::QueueReset
            &&& !skips && !resets ==> submit_step(SubmitStage::Slot(i), refused, count)
                == SubmitStep::Fail
            &&& submit_step(SubmitStage::Ready, SubmitReply::Done, count) == SubmitStep::Next(
                SubmitStage::Connect,
            )
            &&& submit_step(SubmitStage::Ready, refused, count) == SubmitStep::Complete
            &&& submit_step(SubmitStage::Connect, SubmitReply::Done, count) == SubmitStep::Complete
            &&& submit_step(SubmitStage::Connect, refused, count) == SubmitStep::Fail
        }),
{
}

/// A submission whose every value is taken reaches the question whether the
/// session is ready after as many answers as there are slots.
pub proof fn law_accepted_values_lead_to_ready(replies: Seq<SubmitReply>, count: usize)
    requires
        replies.len() <= count,
        forall|i: int| 0 <= i < replies.len() ==> #[trigger] replies[i] is Done,
    ensures
        stage_after(replies, count) == Some(
            if replies.len() < count {
                SubmitStage::Slot(replies.len() as usize)
            } else {
                SubmitStage::Ready
            },
        ),
    decreases replies.len(),
{
    if replies.len() > 0 {
        let rest = replies.drop_last();
        assert forall|i: int| 0 <= i < rest.len() implies #[trigger] rest[i] is Done by {
            assert(rest[i] == replies[i]);
        }
        law_accepted_values_lead_to_ready(rest, count);
        assert(replies[replies.len() - 1] is Done);
    }
}

/// The value that was entered last under a label, and is not empty, is what
/// another try starts from.
pub proof fn law_last_entry_is_kept(
    known: Map<Seq<char>, String>,
    values: Seq<(String, String)>,
    i: int,
)
    requires
        0 <= i < values.len(),
        values[i].1@.len() > 0,
        forall|j: int|
            i < j < values.len() ==> (#[trigger] values[j]).0@ != values[i].0@
                || values[j].1@.len() == 0,
    ensures
        merged(known, values).contains_key(values[i].0@),
        merged(known, values)[values[i].0@] == values[i].1,
    decreases values.len(),
{
    if i < values.len() - 1 {
        let rest = values.drop_last();
        assert forall|j: int| i < j < rest.len() implies (#[trigger] rest[j]).0@ != rest[i].0@
            || rest[j].1@.len() == 0 by {
            assert(rest[j] == values[j]);
        }
        law_last_entry_is_kept(known, rest, i);
        assert(values[values.len() - 1].0@ != values[i].0@ || values[values.len() - 1].1@.len()
            == 0);
    }
}

/// What is known for another try was known before or was entered.
pub proof fn law_merging_invents_nothing(
    known: Map<Seq<char>, String>,
    values: Seq<(String, String)>,
    label: Seq<char>,
)
    requires
        merged(known, values).contains_key(label),
    ensures
        known.contains_key(label) && merged(known, values)[label] == known[label] || exists|i: int|
            0 <= i < values.len() && (#[trigger] values[i]).0@ == label && values[i].1 == merged(
                known,
                values,
            )[label],
    decreases values.len(),
{
    if values.len() > 0 {
        let rest = values.drop_last();
        if values.last().1@.len() > 0 && values.last().0@ == label {
            assert(values[values.len() - 1].0@ == label);
        } else {
            law_merging_invents_nothing(known, rest, label);
            if exists|i: int|
                0 <= i < rest.len() && (#[trigger] rest[i]).0@ == label && rest[i].1 == merged(
                    known,
                    rest,
                )[label] {
                let i = choose|i: int|
                    0 <= i < rest.len() && (#[trigger] rest[i]).0@ == label && rest[i].1 == merged(
                        known,
                        rest,
                    )[label];
                assert(values[i].0@ == label);
            }
        }
    }
}

/// A rejected login is told with the configuration's name; a locked keyring is
/// told apart from one that fails otherwise.
pub proof fn law_hints_tell_the_cause(config_name: Seq<char>)
    ensures
        has_substring(rejected_toast(config_name).body, config_name),
        rejected_toast(config_name).urgency == 2,
        unlock_hint(true) != unlock_hint(false),
        save_hint(true) != save_hint(false),
        has_substring(unlock_hint(true), "locked"@),
        has_substring(save_hint(true), "locked"@),
{
    law_part_occurs_in_the_whole("Server rejected credentials for '"@, config_name, "'."@);
    reveal_strlit("Keyring is locked. Enter credentials manually.");
    reveal_strlit("Could not unlock the keyring. Enter credentials manually.");
    reveal_strlit("Keyring is locked — credentials could not be saved.");
    reveal_strlit("Could not save credentials to the keyring.");
    reveal_strlit("locked");
    assert(unlock_hint(true)[0] == 'K' && unlock_hint(false)[0] == 'C');
    assert(save_hint(true)[0] == 'K' && save_hint(false)[0] == 'C');
    assert(unlock_hint(true).subrange(11, 17) =~= "locked"@);
    assert(occurs_at(unlock_hint(true), "locked"@, 11));
    assert(save_hint(true).subrange(11, 17) =~= "locked"@);
    assert(occurs_at(save_hint(true), "locked"@, 11));
}

/// After a submission values are stored just when it is complete and they are
/// to be remembered, and deleted just when it is complete and they are not; an
/// incomplete one shows the dialog again, and a failed one is told unless the
/// session has a new queue.
pub proof fn law_after_a_submission(
    answer: AfterSubmit,
    outcome: SubmitOutcome,
    remember: bool,
    config_name: Seq<char>,
)
    requires
        is_answer_to(answer, outcome, remember, config_name),
    ensures
        answer is Save <==> outcome is Complete && remember,
        answer is Delete <==> outcome is Complete && !remember,
        answer is ShowAgain <==> outcome is Incomplete,
        answer is AskAgain || answer is Notify <==> outcome is Failed,
        outcome matches SubmitOutcome::Failed(e) ==> (answer is AskAgain <==> has_substring(
            e@,
            "User input not required"@,
        )),
        answer matches AfterSubmit::Notify(toast) ==> toast@.urgency == 2 && has_substring(
            toast@.body,
            config_name,
        ),
{
    law_hints_tell_the_cause(config_name);
}

} // verus!
