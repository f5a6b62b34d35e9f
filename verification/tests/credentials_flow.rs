use openvpn3_gui_rs::credential_store::{
    after_delete, any_cause_locked, begin_lookup, config_id_key, forget_queries, get_with_keyring,
    is_locked_error, raw_search_attrs_for_config, search_attrs_for_all, search_attrs_for_config,
    store_attrs, Attributes, CredentialStore, DeleteStep, KeyringCause, KeyringReply, Lookup,
    LookupStep, SecretId,
};
use openvpn3_gui_rs::keyed::StringMap;
use openvpn3_gui_rs::slots::{
    build_credential_fields, form_plan, keyring_label_variants, label_matches_category,
    lowered_in_category, may_be_kept, placeholder, should_read_label, values_to_keep, Slot,
    StandardField,
};
use openvpn3_gui_rs::submit::{
    after_provide_error, begin_submit, cancel_message, continue_submit, handle_submit_outcome,
    is_credential_slot, keyring_unavailable_notice, merge_values, save_failure_notice,
    submit_credentials, AfterSubmit, ProvideStep, SubmitOutcome, SubmitReply, SubmitStage,
    SubmitStep,
};

const DIGEST_OF_ABC: &str =
    "v1:ba7816bf8f01cfea414140de5dae2223b00361a396177a9cb410ff61f20015ad";

fn id() -> SecretId {
    SecretId { config_id: "abc".into(), config_name: "Work".into(), key: "Username".into() }
}

fn slots() -> Vec<Slot> {
    vec![
        (1, 1, 0, "Enter USERNAME".into(), false),
        (1, 1, 1, "Enter password".into(), true),
        (1, 4, 2, "Authenticator Code".into(), true),
    ]
}

fn pairs(values: &[(&str, &str)]) -> Vec<(String, String)> {
    values.iter().map(|(k, v)| (k.to_string(), v.to_string())).collect()
}

fn text_of(map: &Attributes, key: &str) -> Option<String> {
    map.get(key).cloned()
}

#[test]
fn a_path_is_filed_under_its_digest() {
    assert_eq!(config_id_key("abc"), DIGEST_OF_ABC);
    assert_eq!(
        config_id_key(""),
        "v1:e3b0c44298fc1c149afbf4c8996fb92427ae41e4649b934ca495991b7852b855"
    );
}

#[test]
fn a_secret_is_stored_under_application_configuration_and_label() {
    let attrs = store_attrs("abc", "Password");
    assert_eq!(attrs.len(), 3);
    let mut found: Vec<(String, String)> = (0..attrs.len())
        .map(|i| (attrs.key_at(i).to_string(), attrs.value_at(i).clone()))
        .collect();
    found.sort();
    assert!(found.iter().any(|(_, v)| v == DIGEST_OF_ABC));
    assert!(found.iter().any(|(_, v)| v == "Password"));
    assert!(found.iter().any(|(_, v)| v == "net.openvpn.openvpn3-gui-rs"));
    let by_config = search_attrs_for_config("abc");
    for i in 0..by_config.len() {
        let value = text_of(&attrs, by_config.key_at(i));
        assert_eq!(value.as_deref(), Some(by_config.value_at(i).as_str()));
    }
    let all = search_attrs_for_all();
    assert_eq!(all.len(), 1);
    assert_eq!(raw_search_attrs_for_config("abc").len(), by_config.len());
}

#[test]
fn forgetting_looks_under_digest_and_path() {
    let (by_digest, by_path) = forget_queries("abc", &None);
    let digest_values: Vec<String> =
        (0..by_digest.len()).map(|i| by_digest.value_at(i).clone()).collect();
    let path_values: Vec<String> =
        (0..by_path.len()).map(|i| by_path.value_at(i).clone()).collect();
    assert!(digest_values.contains(&DIGEST_OF_ABC.to_string()));
    assert!(path_values.contains(&"abc".to_string()));
    let (one, _) = forget_queries("abc", &Some("Password".into()));
    assert_eq!(one.len(), by_digest.len() + 1);
}

#[test]
fn a_secret_under_the_digest_is_found_at_once() {
    let (at, step) = begin_lookup(&id());
    match step {
        LookupStep::Search(attrs) => {
            let values: Vec<String> =
                (0..attrs.len()).map(|i| attrs.value_at(i).clone()).collect();
            assert!(values.contains(&DIGEST_OF_ABC.to_string()));
        }
        _ => panic!(),
    }
    let (_, step) = get_with_keyring(at, KeyringReply::Found("joe".into()), &id());
    assert!(matches!(step, LookupStep::Finished(Some(s)) if s == "joe"));
}

#[test]
fn a_secret_under_the_name_is_moved_before_it_is_deleted() {
    let (at, _) = begin_lookup(&id());
    let (at, step) = get_with_keyring(at, KeyringReply::Absent, &id());
    assert!(matches!(&step, LookupStep::Search(a)
        if (0..a.len()).any(|i| a.value_at(i) == "abc")));
    let (at, step) = get_with_keyring(at, KeyringReply::Absent, &id());
    assert!(matches!(&step, LookupStep::Search(a)
        if (0..a.len()).any(|i| a.value_at(i) == "Work")));
    let (at, step) = get_with_keyring(at, KeyringReply::Found("joe".into()), &id());
    assert!(matches!(&step, LookupStep::Store(a, s) if s == "joe"
        && (0..a.len()).any(|i| a.value_at(i) == DIGEST_OF_ABC)));
    let (at, step) = get_with_keyring(at, KeyringReply::Done, &id());
    assert!(matches!(step, LookupStep::DeleteFound));
    let (_, step) = get_with_keyring(at, KeyringReply::Done, &id());
    assert!(matches!(step, LookupStep::Finished(Some(s)) if s == "joe"));
}

#[test]
fn a_secret_that_cannot_be_deleted_is_not_handed_out() {
    let (at, step) = get_with_keyring(Lookup::Deleting("joe".into()), KeyringReply::Failed, &id());
    assert!(matches!(step, LookupStep::Finished(None)));
    assert!(matches!(at, Lookup::Deleting(s) if s == "joe"));
}

#[test]
fn a_failed_deletion_does_not_mask_the_rest() {
    assert_eq!(after_delete(2, false, true), DeleteStep::Next(false));
    assert_eq!(after_delete(1, false, false), DeleteStep::Next(true));
    assert_eq!(after_delete(0, true, true), DeleteStep::Done(true));
    assert_eq!(after_delete(0, false, true), DeleteStep::Done(false));
    assert_eq!(after_delete(0, false, false), DeleteStep::Done(true));
}

#[test]
fn a_one_time_password_is_neither_read_nor_kept() {
    let slots: Vec<Slot> = vec![(1, 1, 0, "One Time Password".into(), true)];
    assert!(!may_be_kept("One Time Password", &slots));
    assert!(!should_read_label("One Time Password", &slots, &StringMap::new()));
    assert!(values_to_keep(&pairs(&[("One Time Password", "123456")]), &slots).is_empty());
    let fields = build_credential_fields(&slots, &StringMap::new());
    assert_eq!(fields[1].key, "One Time Password");
    assert!(!fields[1].can_store);
    for variant in keyring_label_variants("One-Time Code") {
        assert!(!may_be_kept(&variant, &[]));
    }
}

#[test]
fn a_secret_that_cannot_be_stored_anew_stays() {
    let (_, step) = get_with_keyring(Lookup::Storing("joe".into()), KeyringReply::Failed, &id());
    assert!(matches!(step, LookupStep::Finished(None)));
    let (_, step) = get_with_keyring(Lookup::ByName, KeyringReply::Failed, &id());
    assert!(matches!(step, LookupStep::Finished(None)));
    let (_, step) = get_with_keyring(Lookup::ByDigest, KeyringReply::Failed, &id());
    assert!(matches!(step, LookupStep::Broken));
    let (_, step) = get_with_keyring(Lookup::ByPath, KeyringReply::Failed, &id());
    assert!(matches!(step, LookupStep::Broken));
}

#[test]
fn without_a_path_no_secret_is_moved() {
    let nowhere = SecretId { config_id: "".into(), ..id() };
    let (_, step) = get_with_keyring(Lookup::ByPath, KeyringReply::Absent, &nowhere);
    assert!(matches!(step, LookupStep::Finished(None)));
}

#[test]
fn a_locked_keyring_is_told_from_its_causes() {
    assert!(any_cause_locked(&[KeyringCause::Other, KeyringCause::Locked]));
    assert!(any_cause_locked(&[KeyringCause::Dismissed]));
    assert!(!any_cause_locked(&[KeyringCause::Other]));
    assert!(!any_cause_locked(&[]));
    let dismissed = anyhow::Error::from(oo7::Error::DBus(oo7::dbus::Error::Dismissed))
        .context("saving failed");
    assert!(is_locked_error(&dismissed));
    let locked = anyhow::Error::from(oo7::Error::DBus(oo7::dbus::Error::Service(
        oo7::dbus::ServiceError::IsLocked("locked".into()),
    )));
    assert!(is_locked_error(&locked));
    let other = anyhow::Error::from(oo7::Error::DBus(oo7::dbus::Error::Deleted)).context("x");
    assert!(!is_locked_error(&other));
    let _ = CredentialStore::new_sync();
    assert!(CredentialStore::new().is_ok());
}

#[test]
fn labels_belong_to_the_field_they_name() {
    assert!(label_matches_category("Enter USERNAME", "Username"));
    assert!(label_matches_category("Your PassWord", "Password"));
    assert!(label_matches_category("Authenticator Code", "One-Time Code"));
    assert!(!label_matches_category("Authenticator Code", "Password"));
    assert!(!label_matches_category("Password", "One-Time Code"));
    assert!(lowered_in_category("enter username", StandardField::Username));
    assert!(!lowered_in_category("ENTER USERNAME", StandardField::Username));
    assert_eq!(
        keyring_label_variants("Username"),
        vec!["username", "Enter Username", "Enter username"]
    );
    assert_eq!(keyring_label_variants("Password").len(), 4);
    assert_eq!(keyring_label_variants("One-Time Code").len(), 3);
    assert!(keyring_label_variants("Pin").is_empty());
    assert_eq!(placeholder("One-Time Code"), "Enter one-time code");
}

#[test]
fn one_time_codes_are_never_kept() {
    let slots = slots();
    assert!(may_be_kept("Enter USERNAME", &slots));
    assert!(may_be_kept("Enter password", &slots));
    assert!(!may_be_kept("Authenticator Code", &slots));
    let mut known: StringMap<String> = StringMap::new();
    assert!(should_read_label("Enter password", &slots, &known));
    known.insert("Enter password".into(), "x".into());
    assert!(!should_read_label("Enter password", &slots, &known));
    assert!(!should_read_label("Authenticator Code", &slots, &known));
    let entered = pairs(&[
        ("Enter USERNAME", "joe"),
        ("Authenticator Code", "123456"),
        ("Enter password", "pw"),
    ]);
    assert_eq!(
        values_to_keep(&entered, &slots),
        pairs(&[("Enter USERNAME", "joe"), ("Enter password", "pw")])
    );
}

#[test]
fn the_dialog_always_has_three_fields() {
    let mut known: StringMap<String> = StringMap::new();
    known.insert("username".into(), "joe".into());
    let fields = build_credential_fields(&slots(), &known);
    assert_eq!(fields.len(), 3);
    assert_eq!(fields[0].key, "Enter USERNAME");
    assert_eq!(fields[0].saved_value.as_deref(), Some("joe"));
    assert!(!fields[0].masked);
    assert_eq!(fields[1].key, "Enter password");
    assert!(fields[1].masked && fields[1].can_store);
    assert_eq!(fields[2].key, "Authenticator Code");
    assert!(!fields[2].can_store);
    let plan = form_plan(&fields);
    assert!(plan.can_remember && plan.remember);
    assert_eq!(plan.focus, Some(1));
    let bare = build_credential_fields(&[], &StringMap::new());
    assert_eq!(bare[0].key, "Username");
    assert_eq!(bare[1].key, "Password");
    assert_eq!(bare[2].key, "One-Time Code");
    let plan = form_plan(&bare);
    assert!(!plan.remember);
    assert_eq!(plan.focus, Some(0));
}

#[test]
fn a_submission_needs_a_value_for_every_slot() {
    let full = pairs(&[
        ("Enter password", "pw"),
        ("Enter USERNAME", "joe"),
        ("Authenticator Code", "123456"),
    ]);
    let inputs = submit_credentials(&slots(), &full).unwrap();
    assert_eq!(inputs.len(), 3);
    assert_eq!((inputs[0].attention_type, inputs[0].group, inputs[0].id), (1, 1, 0));
    assert_eq!(inputs[0].value, "joe");
    assert_eq!(inputs[2].value, "123456");
    assert!(submit_credentials(&slots(), &full[..2]).is_none());
    let empty = pairs(&[("Enter password", ""), ("Enter USERNAME", "joe")]);
    assert!(submit_credentials(&slots()[..2], &empty).is_none());
}

#[test]
fn a_submission_goes_through_its_slots_in_order() {
    assert_eq!(begin_submit(2), SubmitStage::Slot(0));
    assert_eq!(begin_submit(0), SubmitStage::Ready);
    let done = SubmitReply::Done;
    assert_eq!(
        continue_submit(SubmitStage::Slot(0), &done, 2),
        SubmitStep::Next(SubmitStage::Slot(1))
    );
    assert_eq!(
        continue_submit(SubmitStage::Slot(1), &done, 2),
        SubmitStep::Next(SubmitStage::Ready)
    );
    assert_eq!(
        continue_submit(SubmitStage::Ready, &done, 2),
        SubmitStep::Next(SubmitStage::Connect)
    );
    assert_eq!(continue_submit(SubmitStage::Connect, &done, 2), SubmitStep::Complete);
    let twice = SubmitReply::Refused(Some("slot already-provided".into()));
    assert_eq!(
        continue_submit(SubmitStage::Slot(0), &twice, 2),
        SubmitStep::Next(SubmitStage::Slot(1))
    );
    let reset = SubmitReply::Refused(Some("User input not required".into()));
    assert_eq!(continue_submit(SubmitStage::Slot(0), &reset, 2), SubmitStep::QueueReset);
    let other = SubmitReply::Refused(None);
    assert_eq!(continue_submit(SubmitStage::Slot(0), &other, 2), SubmitStep::Fail);
    assert_eq!(continue_submit(SubmitStage::Ready, &other, 2), SubmitStep::Complete);
    assert_eq!(continue_submit(SubmitStage::Connect, &other, 2), SubmitStep::Fail);
    assert_eq!(after_provide_error(&None), ProvideStep::Fail);
    assert_eq!(after_provide_error(&Some("x already-provided y".into())), ProvideStep::Skip);
}

#[test]
fn the_outcome_decides_what_follows() {
    assert!(matches!(
        handle_submit_outcome(&SubmitOutcome::Complete, true, "Work"),
        AfterSubmit::Save
    ));
    assert!(matches!(
        handle_submit_outcome(&SubmitOutcome::Complete, false, "Work"),
        AfterSubmit::Delete
    ));
    assert!(matches!(
        handle_submit_outcome(&SubmitOutcome::Incomplete, true, "Work"),
        AfterSubmit::ShowAgain
    ));
    let reset = SubmitOutcome::Failed("User input not required".into());
    assert!(matches!(handle_submit_outcome(&reset, true, "Work"), AfterSubmit::AskAgain));
    match handle_submit_outcome(&SubmitOutcome::Failed("no".into()), true, "Work") {
        AfterSubmit::Notify(toast) => {
            assert_eq!(toast.summary, "Authentication Failed");
            assert_eq!(toast.body, "Server rejected credentials for 'Work'.");
        }
        other => panic!("{:?}", other),
    }
}

#[test]
fn another_try_keeps_what_was_entered() {
    let mut known: StringMap<String> = StringMap::new();
    known.insert("Username".into(), "joe".into());
    merge_values(&mut known, &pairs(&[("Username", ""), ("Password", "pw"), ("Password", "pw2")]));
    assert_eq!(known.get("Username").map(|s| s.as_str()), Some("joe"));
    assert_eq!(known.get("Password").map(|s| s.as_str()), Some("pw2"));
}

#[test]
fn the_keyring_notices_say_what_failed() {
    assert_eq!(
        keyring_unavailable_notice(false, false).body,
        "Could not open the keyring. Enter credentials manually."
    );
    assert_eq!(
        keyring_unavailable_notice(true, true).body,
        "Keyring is locked. Enter credentials manually."
    );
    assert_eq!(keyring_unavailable_notice(true, false).summary, "Saved Credentials Unavailable");
    let mut told = false;
    let first = save_failure_notice(true, &mut told).unwrap();
    assert_eq!(first.summary, "Credential Save Failed");
    assert!(save_failure_notice(true, &mut told).is_none());
    let (title, text) = cancel_message("Work");
    assert_eq!(title, "Connection Cancelled");
    assert_eq!(text, "Authentication cancelled for 'Work'. Session disconnected.");
    assert!(is_credential_slot(1));
    assert!(!is_credential_slot(2));
}
