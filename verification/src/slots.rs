//! The slots of a session's input queue and the fields of the credentials
//! dialog.
use vstd::prelude::*;
use vstd::string::*;

use crate::keyed::{holds_at, linked, StringMap};
use crate::policy::{display_label, display_label_for, is_storable_field, storable};
use crate::search::{first_index, lemma_first_index, lemma_first_index_fits};
use crate::text::{
    ascii_lowered, contains, has_substring, law_part_occurs_in_the_whole, lowercase, occurs_at, same,
    texts, to_lowercase,
};

verus! {

/// A slot of the input queue: attention type, group, number, label and whether
/// the input is masked.
pub type Slot = (u32, u32, u32, String, bool);

/// The fields that the dialog always shows.
#[derive(Clone, Copy, Debug, PartialEq, Eq, Structural)]
pub enum StandardField {
    Username,
    Password,
    OneTimeCode,
}

pub open spec fn field_label(f: StandardField) -> Seq<char> {
    match f {
        StandardField::Username => "Username"@,
        StandardField::Password => "Password"@,
        StandardField::OneTimeCode => "One-Time Code"@,
    }
}

pub open spec fn field_masked(f: StandardField) -> bool {
    f != StandardField::Username
}

fn standard_label(f: StandardField) -> (r: &'static str)
    ensures
        r@ == field_label(f),
{
    match f {
        StandardField::Username => "Username",
        StandardField::Password => "Password",
        StandardField::OneTimeCode => "One-Time Code",
    }
}

/// A label, in lower case, belongs to the field.
pub open spec fn in_category(lower: Seq<char>, f: StandardField) -> bool {
    match f {
        StandardField::Username => has_substring(lower, "username"@),
        StandardField::Password => has_substring(lower, "password"@),
        StandardField::OneTimeCode => !has_substring(lower, "username"@) && !has_substring(
            lower,
            "password"@,
        ),
    }
}

/// Whether a label in lower case belongs to the field.
pub fn lowered_in_category(lower: &str, f: StandardField) -> (r: bool)
    ensures
        r == in_category(lower@, f),
{
    match f {
        StandardField::Username => contains(lower, "username"),
        StandardField::Password => contains(lower, "password"),
        StandardField::OneTimeCode => !contains(lower, "username") && !contains(lower, "password"),
    }
}

/// The field with this label; any other text stands for the code.
pub open spec fn field_named(label: Seq<char>) -> StandardField {
    if label == "Username"@ {
        StandardField::Username
    } else if label == "Password"@ {
        StandardField::Password
    } else {
        StandardField::OneTimeCode
    }
}

/// Whether a label belongs to the field with the label `standard_label`.
pub fn label_matches_category(label: &str, standard_label: &str) -> (r: bool)
    ensures
        r == in_category(lowercase(label@), field_named(standard_label@)),
{
    let lower = to_lowercase(label);
    if same(standard_label, "Username") {
        lowered_in_category(lower.as_str(), StandardField::Username)
    } else if same(standard_label, "Password") {
        lowered_in_category(lower.as_str(), StandardField::Password)
    } else {
        lowered_in_category(lower.as_str(), StandardField::OneTimeCode)
    }
}

fn label_in(label: &str, f: StandardField) -> (r: bool)
    ensures
        r == in_category(lowercase(label@), f),
{
    let lower = to_lowercase(label);
    lowered_in_category(lower.as_str(), f)
}

/// The other labels that servers use for a field.
pub open spec fn label_variants(standard_label: Seq<char>) -> Seq<Seq<char>> {
    if standard_label == "Username"@ {
        seq!["username"@, "Enter Username"@, "Enter username"@]
    } else if standard_label == "Password"@ {
        seq!["password"@, "Enter Password"@, "Enter password"@, "Your password"@]
    } else if standard_label == "One-Time Code"@ {
        seq!["one-time code"@, "Authenticator Code"@, "One Time Password"@]
    } else {
        Seq::empty()
    }
}

fn owned(parts: &[&str]) -> (r: Vec<String>)
    ensures
        r@.len() == parts@.len(),
        forall|i: int| 0 <= i < parts@.len() ==> (#[trigger] r@[i])@ == parts@[i]@,
{
    let mut out: Vec<String> = Vec::new();
    let mut i: usize = 0;
    while i < parts.len()
        invariant
            i <= parts.len(),
            out.len() == i,
            forall|j: int| 0 <= j < i ==> (#[trigger] out@[j])@ == parts@[j]@,
        decreases parts.len() - i,
    {
        out.push(parts[i].to_owned());
        i = i + 1;
    }
    out
}

/// The other labels that servers use for the field with this label.
pub fn keyring_label_variants(standard_label: &str) -> (r: Vec<String>)
    ensures
        texts(r@) == label_variants(standard_label@),
{
    let r = if same(standard_label, "Username") {
        owned(&["username", "Enter Username", "Enter username"])
    } else if same(standard_label, "Password") {
        owned(&["password", "Enter Password", "Enter password", "Your password"])
    } else if same(standard_label, "One-Time Code") {
        owned(&["one-time code", "Authenticator Code", "One Time Password"])
    } else {
        Vec::new()
    };
    assert(texts(r@) =~= label_variants(standard_label@));
    r
}

/// Under none of the labels that are used for the code is a value ever stored,
/// masked or not.
pub proof fn law_codes_are_never_stored(i: int, mask: bool)
    requires
        0 <= i < labels_of(StandardField::OneTimeCode).len(),
    ensures
        !storable(ascii_lowered(labels_of(StandardField::OneTimeCode)[i]), mask),
{
    reveal_strlit("One-Time Code");
    reveal_strlit("one-time code");
    reveal_strlit("Authenticator Code");
    reveal_strlit("One Time Password");
    reveal_strlit("one-time");
    reveal_strlit("one time");
    reveal_strlit("code");
    reveal_strlit("Username");
    reveal_strlit("Password");
    assert("One-Time Code"@.len() == 13 && "Username"@.len() == 8 && "Password"@.len() == 8);
    let lower = ascii_lowered(labels_of(StandardField::OneTimeCode)[i]);
    if i == 2 {
        assert(lower.subrange(14, 18) =~= "code"@);
        assert(occurs_at(lower, "code"@, 14));
    } else if i == 3 {
        assert(lower.subrange(0, 8) =~= "one time"@);
        assert(occurs_at(lower, "one time"@, 0));
    } else {
        assert(lower.subrange(0, 8) =~= "one-time"@);
        assert(occurs_at(lower, "one-time"@, 0));
    }
}

/// The labels of the slots.
pub open spec fn slot_labels(slots: Seq<Slot>) -> Seq<Seq<char>> {
    Seq::new(slots.len(), |i: int| slots[i].3@)
}

/// A field's label and the other ones used for it.
pub open spec fn labels_of(f: StandardField) -> Seq<Seq<char>> {
    seq![field_label(f)] + label_variants(field_label(f))
}

/// The labels under which the keyring is asked, in order: those of the slots,
/// and those of each field.
pub open spec fn labels_to_try(slots: Seq<Slot>) -> Seq<Seq<char>> {
    slot_labels(slots) + labels_of(StandardField::Username) + labels_of(StandardField::Password)
        + labels_of(StandardField::OneTimeCode)
}

fn push_labels(labels: &mut Vec<String>, f: StandardField)
    ensures
        texts(final(labels)@) == texts(old(labels)@) + labels_of(f),
{
    let mut variants = keyring_label_variants(standard_label(f));
    let ghost vs = texts(variants@);
    let ghost v0 = variants@;
    labels.push(standard_label(f).to_owned());
    let ghost mid = labels@;
    labels.append(&mut variants);
    assert(labels@ =~= mid + v0);
    assert(texts(labels@) =~= texts(old(labels)@) + labels_of(f));
}

/// The labels under which the keyring is asked for a set of slots, in order.
pub fn build_labels_to_try(slots: &[Slot]) -> (r: Vec<String>)
    ensures
        texts(r@) == labels_to_try(slots@),
{
    let mut labels: Vec<String> = Vec::new();
    let mut i: usize = 0;
    while i < slots.len()
        invariant
            i <= slots.len(),
            labels.len() == i,
            forall|j: int| 0 <= j < i ==> (#[trigger] labels@[j])@ == slots@[j].3@,
        decreases slots.len() - i,
    {
        labels.push(slots[i].3.clone());
        i = i + 1;
    }
    assert(texts(labels@) =~= slot_labels(slots@));
    push_labels(&mut labels, StandardField::Username);
    push_labels(&mut labels, StandardField::Password);
    push_labels(&mut labels, StandardField::OneTimeCode);
    labels
}

/// The slot has this label.
pub open spec fn labelled(label: Seq<char>) -> spec_fn(Slot) -> bool {
    |s: Slot| s.3@ == label
}

/// The mask of the first slot with this label; none if there is no such slot.
pub open spec fn mask_of(slots: Seq<Slot>, label: Seq<char>) -> bool {
    let i = first_index(slots, labelled(label));
    i < slots.len() && slots[i].4
}

/// Whether the slot with this label is masked; a label without a slot is not.
pub fn slot_mask(label: &str, slots: &[Slot]) -> (r: bool)
    ensures
        r == mask_of(slots@, label@),
{
    let mut i: usize = 0;
    while i < slots.len()
        invariant
            i <= slots.len(),
            forall|j: int| 0 <= j < i ==> !labelled(label@)(#[trigger] slots@[j]),
        decreases slots.len() - i,
    {
        if same(slots[i].3.as_str(), label) {
            proof {
                lemma_first_index(slots@, labelled(label@), i as int);
            }
            return slots[i].4;
        }
        i = i + 1;
    }
    proof {
        lemma_first_index(slots@, labelled(label@), i as int);
    }
    false
}

/// The label may be stored and asked for, given the slots.
pub open spec fn keepable(slots: Seq<Slot>, label: Seq<char>) -> bool {
    storable(lowercase(label), mask_of(slots, label))
}

/// Whether the value under this label may be stored, given the slots.
pub fn may_be_kept(label: &str, slots: &[Slot]) -> (r: bool)
    ensures
        r == keepable(slots@, label@),
{
    is_storable_field(label, slot_mask(label, slots))
}

/// The keyring is asked for a label.
pub open spec fn is_asked_for(
    label: Seq<char>,
    slots: Seq<Slot>,
    resolved: Map<Seq<char>, String>,
) -> bool {
    !resolved.contains_key(label) && keepable(slots, label)
}

/// Whether the keyring is asked for a label: it may hold it, and the value is
/// not known yet.
pub fn should_read_label(label: &str, slots: &[Slot], resolved: &StringMap<String>) -> (r: bool)
    ensures
        r == (!resolved@.contains_key(label@) && keepable(slots@, label@)),
        r == is_asked_for(label@, slots@, resolved@),
{
    !resolved.contains_key(label) && may_be_kept(label, slots)
}

/// The submitted values that may be stored, in order.
pub open spec fn kept_values(
    values: Seq<(String, String)>,
    slots: Seq<Slot>,
) -> Seq<(String, String)>
    decreases values.len(),
{
    if values.len() == 0 {
        Seq::empty()
    } else if keepable(slots, values.last().0@) {
        kept_values(values.drop_last(), slots).push(values.last())
    } else {
        kept_values(values.drop_last(), slots)
    }
}

/// The submitted values to store when they are to be remembered, and to delete
/// when they are not.
pub fn values_to_keep(values: &[(String, String)], slots: &[Slot]) -> (r: Vec<(String, String)>)
    ensures
        r@ == kept_values(values@, slots@),
{
    let mut out: Vec<(String, String)> = Vec::new();
    let mut i: usize = 0;
    assert(values@.take(0) =~= Seq::empty());
    while i < values.len()
        invariant
            i <= values.len(),
            out@ == kept_values(values@.take(i as int), slots@),
        decreases values.len() - i,
    {
        assert(values@.take(i as int + 1).drop_last() =~= values@.take(i as int));
        if may_be_kept(values[i].0.as_str(), slots) {
            out.push((values[i].0.clone(), values[i].1.clone()));
        }
        i = i + 1;
    }
    assert(values@.take(i as int) =~= values@);
    out
}

/// What is stored is also asked for again, and what is not is not.
pub proof fn law_stored_labels_are_read_again(
    slots: Seq<Slot>,
    values: Seq<(String, String)>,
    v: (String, String),
)
    ensures
        kept_values(values, slots).contains(v) <==> values.contains(v) && keepable(
            slots,
            v.0@,
        ),
    decreases values.len(),
{
    if values.len() > 0 {
        let rest = values.drop_last();
        law_stored_labels_are_read_again(slots, rest, v);
        let kept = kept_values(rest, slots);
        assert(values =~= rest.push(values.last()));
        if rest.contains(v) {
            let i = choose|i: int| 0 <= i < rest.len() && rest[i] == v;
            assert(values[i] == v);
        }
        if values.contains(v) {
            let i = choose|i: int| 0 <= i < values.len() && values[i] == v;
            if i < rest.len() {
                assert(rest[i] == v);
            }
        }
        assert(values[values.len() - 1] == values.last());
        if keepable(slots, values.last().0@) {
            let all = kept.push(values.last());
            assert(all[kept.len() as int] == values.last());
            if kept.contains(v) {
                let i = choose|i: int| 0 <= i < kept.len() && kept[i] == v;
                assert(all[i] == v);
            }
            if all.contains(v) {
                let i = choose|i: int| 0 <= i < all.len() && all[i] == v;
                if i < kept.len() {
                    assert(kept[i] == v);
                }
            }
        }
    }
}

/// A field of the credentials dialog.
#[derive(Debug)]
pub struct CredentialField {
    /// The label of the slot, under which the value is submitted and stored.
    pub key: String,
    /// What the user sees.
    pub label: String,
    pub masked: bool,
    pub can_store: bool,
    /// The value that is filled in.
    pub saved_value: Option<String>,
}

/// The slot's label belongs to the field.
pub open spec fn belonging(f: StandardField) -> spec_fn(Slot) -> bool {
    |s: Slot| in_category(lowercase(s.3@), f)
}

/// Label and mask of the field: those of its first slot, else its own.
pub open spec fn field_slot(slots: Seq<Slot>, f: StandardField) -> (Seq<char>, bool) {
    let i = first_index(slots, belonging(f));
    if i < slots.len() {
        (slots[i].3@, slots[i].4)
    } else {
        (field_label(f), field_masked(f))
    }
}

fn find_field_slot(slots: &[Slot], f: StandardField) -> (r: (String, bool))
    ensures
        (r.0@, r.1) == field_slot(slots@, f),
{
    let mut i: usize = 0;
    while i < slots.len()
        invariant
            i <= slots.len(),
            forall|j: int| 0 <= j < i ==> !belonging(f)(#[trigger] slots@[j]),
        decreases slots.len() - i,
    {
        if label_in(slots[i].3.as_str(), f) {
            proof {
                lemma_first_index(slots@, belonging(f), i as int);
            }
            return (slots[i].3.clone(), slots[i].4);
        }
        i = i + 1;
    }
    proof {
        lemma_first_index(slots@, belonging(f), i as int);
    }
    let masked = match f {
        StandardField::Username => false,
        _ => true,
    };
    (standard_label(f).to_owned(), masked)
}

/// Some known value belongs to the field.
pub open spec fn category_known(known: Map<Seq<char>, String>, f: StandardField) -> bool {
    exists|k: Seq<char>| #[trigger] known.contains_key(k) && in_category(lowercase(k), f)
}

/// The value that is filled in for a field: the one known under its key, else
/// one known under another label of the same field, of which any may be taken.
pub open spec fn fills(
    saved: Option<String>,
    known: Map<Seq<char>, String>,
    key: Seq<char>,
    f: StandardField,
) -> bool {
    if known.contains_key(key) {
        saved == Some(known[key])
    } else if category_known(known, f) {
        saved is Some && exists|k: Seq<char>| #[trigger]
            known.contains_key(k) && in_category(lowercase(k), f) && known[k] == saved->0
    } else {
        saved is None
    }
}

fn find_saved(known: &StringMap<String>, key: &str, f: StandardField) -> (r: Option<String>)
    ensures
        fills(r, known@, key@, f),
{
    match known.get(key) {
        Some(v) => return Some(v.clone()),
        None => {},
    }
    let n = known.len();
    let mut i: usize = 0;
    while i < n
        invariant
            i <= n,
            n == known.pairs().len(),
            linked(known.pairs(), known@),
            !known@.contains_key(key@),
            forall|j: int|
                0 <= j < i ==> !in_category(lowercase((#[trigger] known.pairs()[j]).0), f),
        decreases n - i,
    {
        if label_in(known.key_at(i), f) {
            assert(known@.contains_key(known.pairs()[i as int].0));
            return Some(known.value_at(i).clone());
        }
        i = i + 1;
    }
    proof {
        if category_known(known@, f) {
            let k = choose|k: Seq<char>| #[trigger]
                known@.contains_key(k) && in_category(lowercase(k), f);
            let j = choose|j: int| holds_at(known.pairs(), k, j);
            assert(in_category(lowercase(known.pairs()[j].0), f));
        }
    }
    None
}

/// The dialog's field for a standard field.
pub open spec fn is_dialog_field(
    field: CredentialField,
    f: StandardField,
    slots: Seq<Slot>,
    known: Map<Seq<char>, String>,
) -> bool {
    let (label, mask) = field_slot(slots, f);
    &&& field.key@ == label
    &&& field.label@ == display_label(lowercase(label))
    &&& field.masked == mask
    &&& field.can_store == storable(lowercase(label), mask)
    &&& fills(field.saved_value, known, label, f)
}

fn dialog_field(f: StandardField, slots: &[Slot], known: &StringMap<String>) -> (r: CredentialField)
    ensures
        is_dialog_field(r, f, slots@, known@),
{
    let (key, masked) = find_field_slot(slots, f);
    let saved_value = find_saved(known, key.as_str(), f);
    let label = display_label_for(key.as_str());
    let can_store = is_storable_field(key.as_str(), masked);
    CredentialField { key, label, masked, can_store, saved_value }
}

/// The fields of the credentials dialog: always the same three, each with the
/// key and mask of the first slot that belongs to it.
pub fn build_credential_fields(slots: &[Slot], prefilled: &StringMap<String>) -> (r: Vec<
    CredentialField,
>)
    ensures
        r@.len() == 3,
        is_dialog_field(r@[0], StandardField::Username, slots@, prefilled@),
        is_dialog_field(r@[1], StandardField::Password, slots@, prefilled@),
        is_dialog_field(r@[2], StandardField::OneTimeCode, slots@, prefilled@),
{
    let mut out: Vec<CredentialField> = Vec::new();
    out.push(dialog_field(StandardField::Username, slots, prefilled));
    out.push(dialog_field(StandardField::Password, slots, prefilled));
    out.push(dialog_field(StandardField::OneTimeCode, slots, prefilled));
    out
}

/// How the credentials dialog opens.
#[derive(Clone, Copy, Debug, PartialEq, Eq)]
pub struct FormPlan {
    /// Offer to remember the values.
    pub can_remember: bool,
    /// The offer is taken at first.
    pub remember: bool,
    /// The field that has the focus.
    pub focus: Option<usize>,
}

/// The field has no value yet.
pub open spec fn without_value() -> spec_fn(CredentialField) -> bool {
    |f: CredentialField| f.saved_value is None
}

/// The plan is how the dialog with these fields opens.
pub open spec fn is_plan_for(plan: FormPlan, fields: Seq<CredentialField>) -> bool {
    let at = first_index(fields, without_value());
    &&& plan.can_remember == (exists|i: int|
        0 <= i < fields.len() && (#[trigger] fields[i]).can_store)
    &&& plan.remember == (plan.can_remember && exists|i: int|
        0 <= i < fields.len() && (#[trigger] fields[i]).saved_value is Some)
    &&& plan.focus == (if at < fields.len() {
        Some(at as usize)
    } else {
        None
    })
}

/// How the dialog with these fields opens: remembering is offered if some
/// field may be stored, and taken at first if some value is known; the first
/// field without a value has the focus.
pub fn form_plan(fields: &[CredentialField]) -> (r: FormPlan)
    ensures
        r.can_remember == (exists|i: int|
            0 <= i < fields@.len() && (#[trigger] fields@[i]).can_store),
        r.remember == (r.can_remember && exists|i: int|
            0 <= i < fields@.len() && (#[trigger] fields@[i]).saved_value is Some),
        r.focus == (if first_index(fields@, without_value()) < fields@.len() {
            Some(first_index(fields@, without_value()) as usize)
        } else {
            None
        }),
        is_plan_for(r, fields@),
{
    let mut can_remember = false;
    let mut some_saved = false;
    let mut focus: Option<usize> = None;
    let mut i: usize = 0;
    while i < fields.len()
        invariant
            i <= fields.len(),
            can_remember == (exists|j: int| 0 <= j < i && (#[trigger] fields@[j]).can_store),
            some_saved == (exists|j: int|
                0 <= j < i && (#[trigger] fields@[j]).saved_value is Some),
            match focus {
                Some(at) => at < i && without_value()(fields@[at as int]) && forall|j: int|
                    0 <= j < at ==> !without_value()(#[trigger] fields@[j]),
                None => forall|j: int| 0 <= j < i ==> !without_value()(#[trigger] fields@[j]),
            },
        decreases fields.len() - i,
    {
        if fields[i].can_store {
            can_remember = true;
        }
        if fields[i].saved_value.is_some() {
            some_saved = true;
        } else if focus.is_none() {
            focus = Some(i);
        }
        i = i + 1;
    }
    proof {
        match focus {
            Some(at) => lemma_first_index(fields@, without_value(), at as int),
            None => lemma_first_index(fields@, without_value(), fields@.len() as int),
        }
    }
    FormPlan { can_remember, remember: can_remember && some_saved, focus }
}

/// What an empty entry of a field shows.
pub fn placeholder(label: &str) -> (r: String)
    ensures
        r@ == "Enter "@ + lowercase(label@),
{
    let lower = to_lowercase(label);
    let mut out = "Enter ".to_owned();
    out.append(lower.as_str());
    out
}

/// A label belongs to the user name or the password if it has the word, and to
/// the code just when it has neither, so every label belongs somewhere.
pub proof fn law_every_label_has_a_field(before: Seq<char>, after: Seq<char>)
    ensures
        in_category(before + "username"@ + after, StandardField::Username),
        in_category(before + "password"@ + after, StandardField::Password),
        in_category(before, StandardField::OneTimeCode) <==> !in_category(
            before,
            StandardField::Username,
        ) && !in_category(before, StandardField::Password),
        in_category(before, StandardField::Username) <==> has_substring(before, "username"@),
        in_category(before, StandardField::Password) <==> has_substring(before, "password"@),
{
    law_part_occurs_in_the_whole(before, "username"@, after);
    law_part_occurs_in_the_whole(before, "password"@, after);
}

/// The keyring is asked under the label of every slot, in their order, and
/// then under all labels in use for the three fields.
pub proof fn law_every_label_is_tried(slots: Seq<Slot>)
    ensures
        ({
            let tried = labels_to_try(slots);
            let n = slots.len() as int;
            &&& tried.len() == n + 13
            &&& forall|i: int| 0 <= i < n ==> #[trigger] tried[i] == slots[i].3@
            &&& tried.skip(n) == seq![
                "Username"@,
                "username"@,
                "Enter Username"@,
                "Enter username"@,
                "Password"@,
                "password"@,
                "Enter Password"@,
                "Enter password"@,
                "Your password"@,
                "One-Time Code"@,
                "one-time code"@,
                "Authenticator Code"@,
                "One Time Password"@,
            ]
        }),
{
    reveal_strlit("Username");
    reveal_strlit("Password");
    reveal_strlit("One-Time Code");
    assert("Username"@[0] == 'U' && "Password"@[0] == 'P' && "One-Time Code"@[0] == 'O');
    let rest = labels_of(StandardField::Username) + labels_of(StandardField::Password) + labels_of(
        StandardField::OneTimeCode,
    );
    assert(labels_to_try(slots) =~= slot_labels(slots) + rest);
    assert(labels_to_try(slots).skip(slots.len() as int) =~= rest);
    assert(rest =~= seq![
        "Username"@,
        "username"@,
        "Enter Username"@,
        "Enter username"@,
        "Password"@,
        "password"@,
        "Enter Password"@,
        "Enter password"@,
        "Your password"@,
        "One-Time Code"@,
        "one-time code"@,
        "Authenticator Code"@,
        "One Time Password"@,
    ]);
}

/// A label is masked as its first slot is, and not at all without a slot; and
/// the value under it may be kept just when such a slot may be stored.
pub proof fn law_mask_of_the_first_slot(slots: Seq<Slot>, label: Seq<char>, i: int)
    requires
        0 <= i <= slots.len(),
        i < slots.len() ==> slots[i].3@ == label,
        forall|j: int| 0 <= j < i ==> (#[trigger] slots[j]).3@ != label,
    ensures
        i < slots.len() ==> mask_of(slots, label) == slots[i].4,
        i == slots.len() ==> !mask_of(slots, label),
        keepable(slots, label) <==> storable(lowercase(label), i < slots.len() && slots[i].4),
{
    assert forall|j: int| 0 <= j < i implies !labelled(label)(#[trigger] slots[j]) by {
        assert(slots[j].3@ != label);
    }
    lemma_first_index(slots, labelled(label), i);
}

/// A field of the dialog has the label and mask of the first slot that belongs
/// to it.
pub proof fn law_field_takes_its_first_slot(slots: Seq<Slot>, f: StandardField, i: int)
    requires
        0 <= i < slots.len(),
        in_category(lowercase(slots[i].3@), f),
        forall|j: int| 0 <= j < i ==> !in_category(lowercase((#[trigger] slots[j]).3@), f),
    ensures
        field_slot(slots, f).0 == slots[i].3@,
        field_slot(slots, f).1 == slots[i].4,
{
    assert forall|j: int| 0 <= j < i implies !belonging(f)(#[trigger] slots[j]) by {
        assert(!in_category(lowercase(slots[j].3@), f));
    }
    lemma_first_index(slots, belonging(f), i);
}

/// A field without a slot has its own label, and is masked unless it is the
/// user name.
pub proof fn law_field_without_a_slot(slots: Seq<Slot>, f: StandardField)
    requires
        forall|j: int|
            0 <= j < slots.len() ==> !in_category(lowercase((#[trigger] slots[j]).3@), f),
    ensures
        field_slot(slots, f).1 == (f != StandardField::Username),
        field_slot(slots, f).0 == (match f {
            StandardField::Username => "Username"@,
            StandardField::Password => "Password"@,
            StandardField::OneTimeCode => "One-Time Code"@,
        }),
{
    assert forall|j: int| 0 <= j < slots.len() implies !belonging(f)(#[trigger] slots[j]) by {
        assert(!in_category(lowercase(slots[j].3@), f));
    }
    lemma_first_index(slots, belonging(f), slots.len() as int);
}

/// The label of a standard field names that field, and its variants are never
/// empty.
pub proof fn law_standard_labels_name_their_fields(f: StandardField)
    ensures
        field_named(field_label(f)) == f,
        label_variants(field_label(f)).len() >= 3,
{
    reveal_strlit("Username");
    reveal_strlit("Password");
    reveal_strlit("One-Time Code");
    assert("Username"@[0] == 'U' && "Password"@[0] == 'P' && "One-Time Code"@[0] == 'O');
}

/// A value that is known under the field's key is filled in; else one that is
/// known under another label of the same field; nothing is filled in that is
/// not known, and a field stays empty only if nothing is known for it.
pub proof fn law_known_values_are_filled_in(
    saved: Option<String>,
    known: Map<Seq<char>, String>,
    key: Seq<char>,
    f: StandardField,
)
    requires
        fills(saved, known, key, f),
    ensures
        known.contains_key(key) ==> saved == Some(known[key]),
        saved is None <==> !known.contains_key(key) && forall|k: Seq<char>| #[trigger]
            known.contains_key(k) ==> !in_category(lowercase(k), f),
        saved is Some ==> exists|k: Seq<char>| #[trigger]
            known.contains_key(k) && known[k] == saved->0 && (k == key || in_category(
                lowercase(k),
                f,
            )),
{
}

/// A field of the dialog is shown, masked, stored and filled as its slot says.
pub proof fn law_dialog_field_follows_its_slot(
    field: CredentialField,
    f: StandardField,
    slots: Seq<Slot>,
    known: Map<Seq<char>, String>,
)
    requires
        is_dialog_field(field, f, slots, known),
    ensures
        field.key@ == field_slot(slots, f).0,
        field.masked == field_slot(slots, f).1,
        field.can_store == storable(lowercase(field.key@), field.masked),
        field.label@ == display_label(lowercase(field.key@)),
        known.contains_key(field.key@) ==> field.saved_value == Some(known[field.key@]),
{
}

/// The values that are kept stay in their order.
pub proof fn law_kept_values_in_order(
    first: Seq<(String, String)>,
    second: Seq<(String, String)>,
    slots: Seq<Slot>,
)
    ensures
        kept_values(first + second, slots) == kept_values(first, slots) + kept_values(
            second,
            slots,
        ),
    decreases second.len(),
{
    if second.len() == 0 {
        assert(first + second =~= first);
        assert(kept_values(first, slots) + kept_values(second, slots) =~= kept_values(
            first,
            slots,
        ));
    } else {
        assert((first + second).drop_last() =~= first + second.drop_last());
        law_kept_values_in_order(first, second.drop_last(), slots);
        assert(kept_values(first + second, slots) =~= kept_values(first, slots) + kept_values(
            second,
            slots,
        ));
    }
}

/// The focus is on the first field that has no value.
pub proof fn law_focus_on_the_first_gap(fields: Seq<CredentialField>, i: int)
    requires
        0 <= i <= fields.len(),
        i < fields.len() ==> fields[i].saved_value is None,
        forall|j: int| 0 <= j < i ==> (#[trigger] fields[j]).saved_value is Some,
    ensures
        first_index(fields, without_value()) == i,
{
    assert forall|j: int| 0 <= j < i implies !without_value()(#[trigger] fields[j]) by {
        assert(fields[j].saved_value is Some);
    }
    lemma_first_index(fields, without_value(), i);
}

/// Remembering is offered as soon as one field may be stored, and taken at
/// first as soon as one value is known besides; the focus is on a field
/// without a value, before which all have one.
pub proof fn law_how_the_dialog_opens(plan: FormPlan, fields: Seq<CredentialField>, i: int)
    requires
        is_plan_for(plan, fields),
        fields.len() <= usize::MAX,
        0 <= i < fields.len(),
    ensures
        fields[i].can_store ==> plan.can_remember,
        fields[i].can_store && (exists|j: int|
            0 <= j < fields.len() && (#[trigger] fields[j]).saved_value is Some) ==> plan.remember,
        plan.remember ==> plan.can_remember,
        (forall|j: int| 0 <= j < fields.len() ==> !(#[trigger] fields[j]).can_store)
            ==> !plan.can_remember,
        (forall|j: int| 0 <= j < fields.len() ==> (#[trigger] fields[j]).saved_value is None)
            ==> !plan.remember,
        fields[i].saved_value is None ==> plan.focus is Some && plan.focus->0 <= i,
        plan.focus is Some ==> plan.focus->0 < fields.len()
            && fields[plan.focus->0 as int].saved_value is None,
{
    lemma_first_index_fits(fields, without_value());
    let at = first_index(fields, without_value());
    if at < fields.len() {
        assert(without_value()(fields[at]));
    }
    if fields[i].saved_value is None {
        assert(without_value()(fields[i]));
    }
}

/// The keyring is not asked for what is known already, nor for what it may not
/// hold; it is asked for all else.
pub proof fn law_what_the_keyring_is_asked_for(
    label: Seq<char>,
    slots: Seq<Slot>,
    resolved: Map<Seq<char>, String>,
)
    ensures
        !is_asked_for(label, slots, resolved) <==> resolved.contains_key(label) || !storable(
            lowercase(label),
            mask_of(slots, label),
        ),
{
}

} // verus!
