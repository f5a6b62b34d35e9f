//! The editor for the list of bypass networks in the preferences.
use vstd::prelude::*;
use vstd::string::*;

use crate::cidrs::{check_syntax, enabled, enabled_cidrs, listed, syntax_fault, IpFamily};
use crate::protocol::{StatusMajor, StatusMinor};
use crate::settings::{Settings, SettingsValues};
use crate::text::{copy_strings, decimal, decimal_text, same, texts, trim, trimmed};
use crate::tray::{some_connected, SessionInfo, VpnTray};

verus! {

/// The editor. `S` is the type of a text, `L` that of a list.
#[verifier::reject_recursive_types(S)]
#[verifier::reject_recursive_types(L)]
#[verifier::ext_equal]
#[derive(Debug)]
pub struct RoutingEditor<S = String, L = Vec<String>> {
    /// The networks.
    pub entries: L,
    /// Those that are switched off for now.
    pub disabled: L,
    /// The lists as they were at first.
    pub initial: L,
    pub initial_disabled: L,
    /// The position of the network that is being changed.
    pub editing: Option<usize>,
    /// So many networks fit in the list.
    pub max_count: usize,
    /// The text in the entry.
    pub text: S,
    /// The button that adds or changes a network can be pressed.
    pub can_submit: bool,
    /// What is said below the entry.
    pub message: Option<S>,
}

pub type EditorModel = RoutingEditor<Seq<char>, Seq<Seq<char>>>;

impl View for RoutingEditor<String, Vec<String>> {
    type V = EditorModel;

    open spec fn view(&self) -> EditorModel {
        RoutingEditor {
            entries: texts(self.entries@),
            disabled: texts(self.disabled@),
            initial: texts(self.initial@),
            initial_disabled: texts(self.initial_disabled@),
            editing: self.editing,
            max_count: self.max_count,
            text: self.text@,
            can_submit: self.can_submit,
            message: match self.message {
                Some(m) => Some(m@),
                None => None,
            },
        }
    }
}

/// A list without one of its texts.
pub open spec fn without(list: Seq<Seq<char>>, text: Seq<char>) -> Seq<Seq<char>> {
    list.filter(|c: Seq<char>| c != text)
}

fn remove_all(list: &[String], text: &str) -> (r: Vec<String>)
    ensures
        texts(r@) == without(texts(list@), text@),
{
    let mut out: Vec<String> = Vec::new();
    let mut i: usize = 0;
    let ghost keep = |c: Seq<char>| c != text@;
    proof {
        reveal(Seq::filter);
        assert(texts(list@).take(0).filter(keep) =~= Seq::empty());
        assert(texts(out@) =~= Seq::empty());
    }
    while i < list.len()
        invariant
            i <= list.len(),
            keep == (|c: Seq<char>| c != text@),
            texts(out@) == texts(list@).take(i as int).filter(keep),
        decreases list.len() - i,
    {
        let ghost before = texts(out@);
        proof {
            reveal(Seq::filter);
            assert(texts(list@).take(i as int + 1).drop_last() =~= texts(list@).take(i as int));
            assert(texts(list@).take(i as int + 1).last() == list@[i as int]@);
        }
        if !same(list[i].as_str(), text) {
            out.push(list[i].clone());
            assert(texts(out@) =~= before.push(list@[i as int]@));
        }
        i = i + 1;
    }
    assert(texts(list@).take(i as int) =~= texts(list@));
    out
}

pub open spec fn full_message(count: nat, max_count: nat) -> Seq<char> {
    "List is full ("@ + decimal(count) + " of "@ + decimal(max_count)
        + " entries). Remove one to add another."@
}

/// The editor after the text in the entry has changed. `family` is the family
/// of the address in the text, nothing if there is none.
pub open spec fn typed(m: EditorModel, text: Seq<char>, family: Option<IpFamily>) -> EditorModel {
    let input = trimmed(text);
    if input.len() == 0 {
        RoutingEditor { text, can_submit: false, message: None, ..m }
    } else {
        match syntax_fault(input, family) {
            Some(fault) => RoutingEditor { text, can_submit: false, message: Some(fault), ..m },
            None => if m.editing is None && m.entries.len() >= m.max_count {
                RoutingEditor {
                    text,
                    can_submit: false,
                    message: Some(full_message(m.entries.len(), m.max_count as nat)),
                    ..m
                }
            } else {
                RoutingEditor { text, can_submit: true, message: None, ..m }
            },
        }
    }
}

/// The editor ready for a new network, with an empty entry.
pub open spec fn fresh(m: EditorModel) -> EditorModel {
    RoutingEditor { text: Seq::empty(), editing: None, can_submit: false, message: None, ..m }
}

/// The editor after a network was switched on or off.
pub open spec fn toggled(m: EditorModel, idx: usize, on: bool) -> EditorModel {
    if idx >= m.entries.len() {
        m
    } else if on {
        RoutingEditor { disabled: without(m.disabled, m.entries[idx as int]), ..m }
    } else if m.disabled.contains(m.entries[idx as int]) {
        m
    } else {
        RoutingEditor { disabled: m.disabled.push(m.entries[idx as int]), ..m }
    }
}

/// The editor after a network was deleted.
pub open spec fn deleted(m: EditorModel, idx: usize) -> EditorModel {
    let rest = if idx < m.entries.len() {
        RoutingEditor {
            entries: m.entries.remove(idx as int),
            disabled: without(m.disabled, m.entries[idx as int]),
            ..m
        }
    } else {
        m
    };
    if m.editing == Some(idx) {
        fresh(rest)
    } else {
        rest
    }
}

/// The editor after a row was chosen for changing: its text is entered, and
/// judged as any other text is at that moment, before the row counts as the one
/// that is being changed.
pub open spec fn activated(m: EditorModel, idx: usize, family: Option<IpFamily>) -> EditorModel {
    if idx >= m.entries.len() {
        m
    } else {
        RoutingEditor {
            editing: Some(idx),
            message: None,
            ..typed(m, m.entries[idx as int], family)
        }
    }
}

/// The list that the user asks for.
pub open spec fn prospective(m: EditorModel) -> Seq<Seq<char>> {
    match m.editing {
        Some(i) => if i < m.entries.len() {
            m.entries.update(i as int, trimmed(m.text))
        } else {
            m.entries.push(trimmed(m.text))
        },
        None => m.entries.push(trimmed(m.text)),
    }
}

/// The editor after the helper has checked the list that was asked for.
pub open spec fn checked(
    m: EditorModel,
    verdict: Result<Seq<Seq<char>>, Seq<char>>,
) -> EditorModel {
    match verdict {
        Ok(canonical) => fresh(RoutingEditor { entries: canonical, ..m }),
        Err(message) => RoutingEditor { message: Some(message), can_submit: true, ..m },
    }
}

pub open spec fn verdict_model(v: Result<Vec<String>, String>) -> Result<
    Seq<Seq<char>>,
    Seq<char>,
> {
    match v {
        Ok(list) => Ok(texts(list@)),
        Err(m) => Err(m@),
    }
}

impl RoutingEditor<String, Vec<String>> {
    /// The editor for the stored lists.
    pub fn new(settings: &Settings) -> (r: Self)
        ensures
            r@ == (RoutingEditor {
                entries: settings.bypass_cidrs_view(),
                disabled: settings.bypass_cidrs_disabled_view(),
                initial: settings.bypass_cidrs_view(),
                initial_disabled: settings.bypass_cidrs_disabled_view(),
                editing: None,
                max_count: settings.bypass_cidrs_max_count_spec() as usize,
                text: Seq::<char>::empty(),
                can_submit: false,
                message: None,
            }),
    {
        let entries = settings.bypass_cidrs();
        let disabled = settings.bypass_cidrs_disabled();
        let initial = copy_strings(entries.as_slice());
        let initial_disabled = copy_strings(disabled.as_slice());
        let max_count = settings.bypass_cidrs_max_count() as usize;
        let text = String::new();
        assert(text@ =~= Seq::empty());
        RoutingEditor {
            entries,
            disabled,
            initial,
            initial_disabled,
            editing: None,
            max_count,
            text,
            can_submit: false,
            message: None,
        }
    }

    /// How many networks there are, and how many fit.
    pub fn counter(&self) -> (r: String)
        ensures
            r@ == decimal(self@.entries.len()) + " of "@ + decimal(self.max_count as nat)
                + " entries"@,
    {
        let mut out = decimal_text(self.entries.len() as u64);
        out.append(" of ");
        out.append(decimal_text(self.max_count as u64).as_str());
        out.append(" entries");
        out
    }

    /// Whether the network at this position is switched on.
    pub fn is_on(&self, idx: usize) -> (r: bool)
        requires
            idx < self.entries@.len(),
        ensures
            r == !self@.disabled.contains(self@.entries[idx as int]),
    {
        !listed(self.disabled.as_slice(), self.entries[idx].as_str())
    }

    /// Switches the network at this position on or off.
    pub fn toggle(&mut self, idx: usize, on: bool)
        ensures
            final(self)@ == toggled(old(self)@, idx, on),
    {
        if idx >= self.entries.len() {
            return;
        }
        if on {
            self.disabled = remove_all(self.disabled.as_slice(), self.entries[idx].as_str());
        } else if !listed(self.disabled.as_slice(), self.entries[idx].as_str()) {
            let ghost before = texts(self.disabled@);
            let cidr = self.entries[idx].clone();
            self.disabled.push(cidr);
            assert(texts(self.disabled@) =~= before.push(cidr@));
        }
    }

    fn reset(&mut self)
        ensures
            final(self)@ == fresh(old(self)@),
    {
        self.text = String::new();
        assert(self.text@ =~= Seq::empty());
        self.editing = None;
        self.can_submit = false;
        self.message = None;
    }

    /// Deletes the network at this position. If it was being changed, the entry
    /// is emptied.
    pub fn delete(&mut self, idx: usize)
        ensures
            final(self)@ == deleted(old(self)@, idx),
    {
        if idx < self.entries.len() {
            let ghost before = texts(self.entries@);
            let gone = self.entries.remove(idx);
            assert(texts(self.entries@) =~= before.remove(idx as int));
            assert(gone@ == before[idx as int]);
            self.disabled = remove_all(self.disabled.as_slice(), gone.as_str());
        }
        match self.editing {
            Some(i) => if i == idx {
                self.reset();
            },
            None => {},
        }
    }

    /// Takes in what the user has typed. `family` is the family of the address
    /// in the text, nothing if there is none.
    pub fn changed(&mut self, text: &str, family: Option<IpFamily>)
        ensures
            final(self)@ == typed(old(self)@, text@, family),
    {
        self.text = text.to_owned();
        let input = trim(text);
        if input.as_str().is_empty() {
            self.can_submit = false;
            self.message = None;
            return;
        }
        match check_syntax(input.as_str(), family) {
            Ok(()) => if self.editing.is_none() && self.entries.len() >= self.max_count {
                self.can_submit = false;
                let mut message = "List is full (".to_owned();
                message.append(decimal_text(self.entries.len() as u64).as_str());
                message.append(" of ");
                message.append(decimal_text(self.max_count as u64).as_str());
                message.append(" entries). Remove one to add another.");
                self.message = Some(message);
            } else {
                self.can_submit = true;
                self.message = None;
            },
            Err(fault) => {
                self.can_submit = false;
                self.message = Some(fault);
            },
        }
    }

    /// Brings the network at this position into the entry, to be changed.
    /// `family` is the family of its address.
    pub fn activate(&mut self, idx: usize, family: Option<IpFamily>)
        ensures
            final(self)@ == activated(old(self)@, idx, family),
    {
        if idx >= self.entries.len() {
            return;
        }
        let cidr = self.entries[idx].clone();
        assert(cidr@ == old(self)@.entries[idx as int]);
        self.changed(cidr.as_str(), family);
        self.editing = Some(idx);
        self.message = None;
    }

    /// Gives up changing a network.
    pub fn cancel(&mut self)
        ensures
            final(self)@ == fresh(old(self)@),
    {
        self.reset();
    }

    /// The list that the helper has to check, if there is a text. The button
    /// rests until the answer is there.
    pub fn submit(&mut self) -> (r: Option<Vec<String>>)
        ensures
            r is None == (trimmed(old(self)@.text).len() == 0),
            r is Some ==> texts(r->0@) == prospective(old(self)@),
            final(self)@ == (if r is Some {
                RoutingEditor { can_submit: false, ..old(self)@ }
            } else {
                old(self)@
            }),
    {
        let input = trim(self.text.as_str());
        if input.as_str().is_empty() {
            return None;
        }
        let mut list = copy_strings(self.entries.as_slice());
        let ghost before = texts(list@);
        match self.editing {
            Some(i) if i < list.len() => {
                list.set(i, input);
                assert(texts(list@) =~= before.update(i as int, input@));
            },
            _ => {
                list.push(input);
                assert(texts(list@) =~= before.push(input@));
            },
        }
        self.can_submit = false;
        Some(list)
    }

    /// Takes in the helper's answer: the list in its canonical form, or why it
    /// was refused.
    pub fn validated(&mut self, verdict: Result<Vec<String>, String>)
        ensures
            final(self)@ == checked(old(self)@, verdict_model(verdict)),
    {
        match verdict {
            Ok(canonical) => {
                self.entries = canonical;
                self.reset();
            },
            Err(message) => {
                self.message = Some(message);
                self.can_submit = true;
            },
        }
    }
}

fn same_lists(a: &[String], b: &[String]) -> (r: bool)
    ensures
        r == (texts(a@) == texts(b@)),
{
    if a.len() != b.len() {
        assert(texts(a@).len() != texts(b@).len());
        return false;
    }
    let mut i: usize = 0;
    while i < a.len()
        invariant
            i <= a.len(),
            a.len() == b.len(),
            forall|j: int| 0 <= j < i ==> (#[trigger] a@[j])@ == b@[j]@,
        decreases a.len() - i,
    {
        if !same(a[i].as_str(), b[i].as_str()) {
            assert(texts(a@)[i as int] != texts(b@)[i as int]);
            return false;
        }
        i = i + 1;
    }
    assert(texts(a@) =~= texts(b@));
    true
}

/// The user has changed one of the lists.
pub open spec fn edited(m: EditorModel) -> bool {
    m.entries != m.initial || m.disabled != m.initial_disabled
}

/// The helper is told at once.
pub open spec fn is_told_at_once(
    m: EditorModel,
    sessions: Map<Seq<char>, SessionInfo<Seq<char>>>,
) -> bool {
    edited(m) && some_connected(sessions)
}

/// Stores the lists that the user has changed. The result is what the helper
/// is told at once: the networks that are switched on, if some list has
/// changed and some session is connected.
pub fn apply_bypass_changes(
    settings: &mut Settings,
    editor: &RoutingEditor,
    tray: &VpnTray,
) -> (r: Option<Vec<String>>)
    ensures
        r is Some == (edited(editor@) && some_connected(tray@.sessions)),
        r is Some == is_told_at_once(editor@, tray@.sessions),
        r is Some ==> texts(r->0@) == enabled(editor@.entries, editor@.disabled),
        final(settings).store is Some == old(settings).store is Some,
        old(settings).store is Some ==> {
            let before = old(settings).store->0;
            let after = final(settings).store->0;
            &&& texts(after.bypass_cidrs@) == (if editor@.entries != editor@.initial {
                editor@.entries
            } else {
                texts(before.bypass_cidrs@)
            })
            &&& texts(after.bypass_cidrs_disabled@) == (if editor@.disabled
                != editor@.initial_disabled {
                editor@.disabled
            } else {
                texts(before.bypass_cidrs_disabled@)
            })
            &&& after == (SettingsValues {
                bypass_cidrs: after.bypass_cidrs,
                bypass_cidrs_disabled: after.bypass_cidrs_disabled,
                ..before
            })
        },
        !edited(editor@) ==> *final(settings) == *old(settings),
{
    let cidrs_changed = !same_lists(editor.entries.as_slice(), editor.initial.as_slice());
    let disabled_changed = !same_lists(
        editor.disabled.as_slice(),
        editor.initial_disabled.as_slice(),
    );
    if !cidrs_changed && !disabled_changed {
        return None;
    }
    if cidrs_changed {
        settings.set_bypass_cidrs(editor.entries.as_slice());
    }
    if disabled_changed {
        settings.set_bypass_cidrs_disabled(editor.disabled.as_slice());
    }
    if tray.any_connected() {
        Some(enabled_cidrs(editor.entries.as_slice(), editor.disabled.as_slice()))
    } else {
        None
    }
}

/// A network that is switched off and on again is on, and no other network has
/// changed.
pub proof fn law_switching_back_on(m: EditorModel, idx: usize, other: Seq<char>)
    requires
        idx < m.entries.len(),
    ensures
        ({
            let c = m.entries[idx as int];
            let off = toggled(m, idx, false);
            let on = toggled(off, idx, true);
            &&& off.disabled.contains(c)
            &&& !on.disabled.contains(c)
            &&& on.entries == m.entries
            &&& other != c ==> on.disabled.contains(other) == m.disabled.contains(other)
                && off.disabled.contains(other) == m.disabled.contains(other)
        }),
{
    let c = m.entries[idx as int];
    let off = toggled(m, idx, false);
    let on = toggled(off, idx, true);
    if !m.disabled.contains(c) {
        assert(off.disabled[m.disabled.len() as int] == c);
        if m.disabled.contains(other) {
            let i = choose|i: int| 0 <= i < m.disabled.len() && m.disabled[i] == other;
            assert(off.disabled[i] == other);
        }
        if off.disabled.contains(other) && other != c {
            let i = choose|i: int| 0 <= i < off.disabled.len() && off.disabled[i] == other;
            assert(m.disabled[i] == other);
        }
    }
    lemma_without(off.disabled, c, other);
    lemma_without(off.disabled, c, c);
}

proof fn lemma_without(list: Seq<Seq<char>>, text: Seq<char>, other: Seq<char>)
    ensures
        without(list, text).contains(other) == (list.contains(other) && other != text),
    decreases list.len(),
{
    reveal(Seq::filter);
    if list.len() > 0 {
        let rest = list.drop_last();
        lemma_without(rest, text, other);
        assert(list =~= rest.push(list.last()));
        if rest.contains(other) {
            let i = choose|i: int| 0 <= i < rest.len() && rest[i] == other;
            assert(list[i] == other);
        }
        if list.contains(other) {
            let i = choose|i: int| 0 <= i < list.len() && list[i] == other;
            if i < rest.len() {
                assert(rest[i] == other);
            }
        }
        assert(list[list.len() - 1] == list.last());
        let kept = without(rest, text);
        let all = kept.push(list.last());
        assert(all[kept.len() as int] == list.last());
        if kept.contains(other) {
            let i = choose|i: int| 0 <= i < kept.len() && kept[i] == other;
            assert(all[i] == other);
        }
        if all.contains(other) {
            let i = choose|i: int| 0 <= i < all.len() && all[i] == other;
            if i < kept.len() {
                assert(kept[i] == other);
            }
        }
    }
}

/// Changing a network keeps the list's length, adding one makes it longer by
/// one, and only the last is refused when the list is full.
pub proof fn law_only_adding_grows_the_list(
    m: EditorModel,
    text: Seq<char>,
    family: Option<IpFamily>,
)
    ensures
        m.editing matches Some(i) && i < m.entries.len() ==> prospective(m).len()
            == m.entries.len(),
        m.editing is None ==> prospective(m).len() == m.entries.len() + 1,
        typed(m, text, family).can_submit ==> m.editing is Some || m.entries.len() < m.max_count,
        m.editing is Some ==> typed(m, text, family).can_submit == (trimmed(text).len() > 0
            && syntax_fault(trimmed(text), family) is None),
{
}

/// Deleting a network takes one row off the list and leaves the network in the
/// list of those that are switched off no more; a refused list leaves both
/// lists as they are.
pub proof fn law_deleting_forgets_the_network(m: EditorModel, idx: usize, message: Seq<char>)
    requires
        idx < m.entries.len(),
    ensures
        !deleted(m, idx).disabled.contains(m.entries[idx as int]),
        deleted(m, idx).entries == m.entries.remove(idx as int),
        checked(m, Err(message)).entries == m.entries,
        checked(m, Err(message)).disabled == m.disabled,
{
    lemma_without(m.disabled, m.entries[idx as int], m.entries[idx as int]);
}

/// A text can be submitted just when it is a well-formed network and there is
/// room for it, which a network that replaces another one does not need. What
/// is typed touches neither of the lists.
pub proof fn law_what_can_be_submitted(m: EditorModel, text: Seq<char>, family: Option<IpFamily>)
    ensures
        ({
            let after = typed(m, text, family);
            let sound = trimmed(text).len() > 0 && syntax_fault(trimmed(text), family) is None;
            &&& after.can_submit <==> sound && (m.editing is Some || m.entries.len() < m.max_count)
            &&& after.message is None <==> trimmed(text).len() == 0 || after.can_submit
            &&& trimmed(text).len() > 0 && !sound ==> after.message == syntax_fault(
                trimmed(text),
                family,
            )
            &&& after.text == text
            &&& after.entries == m.entries && after.disabled == m.disabled
            &&& after.editing == m.editing && after.max_count == m.max_count
            &&& after.initial == m.initial && after.initial_disabled == m.initial_disabled
        }),
{
}

/// Switching a network off or on changes whether it is off, and nothing else:
/// no other network, and not the list itself. A network that is off already is
/// not entered twice.
pub proof fn law_switch_concerns_one_network(
    m: EditorModel,
    idx: usize,
    on: bool,
    other: Seq<char>,
)
    requires
        idx < m.entries.len(),
    ensures
        ({
            let after = toggled(m, idx, on);
            let c = m.entries[idx as int];
            &&& after.disabled.contains(c) <==> !on
            &&& other != c ==> after.disabled.contains(other) == m.disabled.contains(other)
            &&& !on && m.disabled.contains(c) ==> after.disabled == m.disabled
            &&& !on && !m.disabled.contains(c) ==> after.disabled == m.disabled.push(c)
            &&& after.disabled.len() <= m.disabled.len() + 1
            &&& after == RoutingEditor { disabled: after.disabled, ..m }
        }),
{
    let c = m.entries[idx as int];
    let after = toggled(m, idx, on);
    lemma_without(m.disabled, c, c);
    lemma_without(m.disabled, c, other);
    m.disabled.lemma_filter_len(|x: Seq<char>| x != c);
    if !on && !m.disabled.contains(c) {
        assert(after.disabled[m.disabled.len() as int] == c);
        if m.disabled.contains(other) {
            let i = choose|i: int| 0 <= i < m.disabled.len() && m.disabled[i] == other;
            assert(after.disabled[i] == other);
        }
        if after.disabled.contains(other) && other != c {
            let i = choose|i: int| 0 <= i < after.disabled.len() && after.disabled[i] == other;
            assert(m.disabled[i] == other);
        }
    }
}

/// A position that is not in the list can be switched, chosen or deleted
/// without effect on the lists.
pub proof fn law_positions_beyond_the_list(
    m: EditorModel,
    idx: usize,
    on: bool,
    family: Option<IpFamily>,
)
    requires
        idx >= m.entries.len(),
    ensures
        toggled(m, idx, on) == m,
        activated(m, idx, family) == m,
        deleted(m, idx).entries == m.entries,
        deleted(m, idx).disabled == m.disabled,
{
}

/// Deleting a network moves the later ones up by one and leaves every other
/// network on or off as it was; the entry is emptied just when the network was
/// being changed.
pub proof fn law_deleting_concerns_one_network(m: EditorModel, idx: usize, other: Seq<char>)
    requires
        idx < m.entries.len(),
    ensures
        ({
            let after = deleted(m, idx);
            &&& after.entries.len() == m.entries.len() - 1
            &&& forall|i: int| 0 <= i < idx ==> after.entries[i] == m.entries[i]
            &&& forall|i: int|
                idx <= i < after.entries.len() ==> after.entries[i] == m.entries[i + 1]
            &&& after.disabled.contains(other) <==> m.disabled.contains(other) && other
                != m.entries[idx as int]
            &&& m.editing == Some(idx) ==> after.text.len() == 0 && after.editing is None
                && !after.can_submit && after.message is None
            &&& m.editing != Some(idx) ==> after.text == m.text && after.editing == m.editing
                && after.can_submit == m.can_submit && after.message == m.message
            &&& after.initial == m.initial && after.initial_disabled == m.initial_disabled
            &&& after.max_count == m.max_count
        }),
{
    lemma_without(m.disabled, m.entries[idx as int], other);
}

/// A row that is chosen for changing has its network in the entry and is the
/// one that is changed; the lists stay as they are.
pub proof fn law_chosen_row_is_entered(m: EditorModel, idx: usize, family: Option<IpFamily>)
    requires
        idx < m.entries.len(),
    ensures
        ({
            let after = activated(m, idx, family);
            &&& after.text == m.entries[idx as int]
            &&& after.editing == Some(idx)
            &&& after.message is None
            &&& after.entries == m.entries && after.disabled == m.disabled
            &&& after.can_submit == typed(m, m.entries[idx as int], family).can_submit
            &&& trimmed(after.text) == after.text ==> prospective(after) == m.entries
        }),
{
    let after = activated(m, idx, family);
    if trimmed(after.text) == after.text {
        assert(prospective(after) =~= m.entries);
    }
}

/// The list that is asked for has the trimmed text in place of the network
/// that is changed, or behind all others, and every other network as it was.
pub proof fn law_requested_list_has_the_text(m: EditorModel)
    ensures
        ({
            let wanted = prospective(m);
            let n = m.entries.len() as int;
            let at = if m.editing is Some && m.editing->0 < n {
                m.editing->0 as int
            } else {
                n
            };
            &&& wanted[at] == trimmed(m.text)
            &&& wanted.len() == (if at == n {
                n + 1
            } else {
                n
            })
            &&& forall|i: int| 0 <= i < n && i != at ==> wanted[i] == m.entries[i]
        }),
{
}

/// A list that the helper accepts becomes the list, in the helper's form, and
/// the entry is ready for the next network; of a refused one the reason is
/// shown, and the text stays and can be submitted again.
pub proof fn law_helper_has_the_last_word(
    m: EditorModel,
    canonical: Seq<Seq<char>>,
    reason: Seq<char>,
)
    ensures
        ({
            let taken = checked(m, Ok(canonical));
            let refused = checked(m, Err(reason));
            &&& taken.entries == canonical
            &&& taken.disabled == m.disabled
            &&& taken.text.len() == 0 && taken.editing is None
            &&& !taken.can_submit && taken.message is None
            &&& taken.initial == m.initial && taken.initial_disabled == m.initial_disabled
            &&& taken.max_count == m.max_count
            &&& refused.message == Some(reason)
            &&& refused.can_submit
            &&& refused.text == m.text && refused.editing == m.editing
            &&& refused.entries == m.entries && refused.disabled == m.disabled
        }),
{
}

/// Giving up a change empties the entry and keeps the lists.
pub proof fn law_giving_up_keeps_the_lists(m: EditorModel)
    ensures
        fresh(m).text.len() == 0 && fresh(m).editing is None && fresh(m).message is None,
        !fresh(m).can_submit,
        fresh(m).entries == m.entries && fresh(m).disabled == m.disabled,
        fresh(m).initial == m.initial && fresh(m).initial_disabled == m.initial_disabled,
        fresh(m).max_count == m.max_count,
{
}

/// A change is seen as soon as one of the lists differs from what it was, be
/// it only in the order, and only then.
pub proof fn law_changes_are_seen(m: EditorModel)
    ensures
        !edited(m) <==> m.entries == m.initial && m.disabled == m.initial_disabled,
{
}

/// The helper is told at once just when one of the lists has changed and some
/// session is connected.
pub proof fn law_helper_is_told_of_changes(
    m: EditorModel,
    sessions: Map<Seq<char>, SessionInfo<Seq<char>>>,
)
    ensures
        is_told_at_once(m, sessions) <==> (m.entries != m.initial || m.disabled
            != m.initial_disabled) && exists|p: Seq<char>| #[trigger]
            sessions.contains_key(p) && sessions[p].status.major == StatusMajor::Connection
                && sessions[p].status.minor == StatusMinor::ConnConnected,
{
}

} // verus!
