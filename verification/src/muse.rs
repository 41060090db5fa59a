//! Muse accounts and credentials.
//!
//! Credentials come from the accounts that are kept here, or, with consent, from
//! the file of the Muse command-line client, which is read in place.
use crate::json;
use crate::json::{get_i64, get_member, get_text, parse_json};
use crate::paths;
use crate::paths::join_path;
use crate::text;
use crate::text::{
    chars_of, clone_opt, opt_is, parse_i64, starts_with, text_eq, trim_text,
};
use serde_json::Value;
use vstd::prelude::*;
use vstd::string::*;

verus! {

/// The name under which consent to read the client's file is recorded.
pub const MUSE_AUTH_SOURCE_ID: &'static str = "muse_cli_auth_json";

/// The prefix of account labels.
pub const ACCOUNT_LABEL_PREFIX: &'static str = "muse";

/// What a request is authorized with.
#[derive(Debug, Clone)]
pub struct MuseCredentials {
    pub access_token: String,
    /// The `LLM|...` key that is used for inference. It is read from the client's
    /// file, or derived from the access token.
    pub api_key: Option<String>,
    pub expires_at: Option<i64>,
}

/// An account.
#[derive(Debug, Clone)]
pub struct MuseAccount {
    pub label: String,
    pub access_token: String,
    pub api_key: Option<String>,
    pub refresh_token: Option<String>,
    pub expires_at: Option<i64>,
    pub email: Option<String>,
}

/// The accounts, and the one that is active.
#[derive(Debug, Clone)]
pub struct JcodeMuseAuthFile {
    pub muse_accounts: Vec<MuseAccount>,
    pub active_muse_account: Option<String>,
}

impl Default for JcodeMuseAuthFile {
    /// No accounts.
    fn default() -> (r: Self)
        ensures
            r.muse_accounts@ == Seq::<MuseAccount>::empty(),
            r.active_muse_account is None,
    {
        JcodeMuseAuthFile { muse_accounts: Vec::new(), active_muse_account: None }
    }
}

/// What this process knows about accounts beside what is stored.
#[derive(Debug, Clone)]
pub struct AccountRuntime {
    /// The account that this process uses in place of the stored active one.
    pub active_override: Option<String>,
}

impl AccountRuntime {
    /// Nothing is overridden.
    pub fn new() -> (r: Self)
        ensures
            r.active_override is None,
    {
        AccountRuntime { active_override: None }
    }
}

/// Overrides the active account for this process, or takes the override back.
pub fn set_active_account_override(runtime: &mut AccountRuntime, label: Option<String>)
    ensures
        final(runtime).active_override == label,
{
    runtime.active_override = label;
}

/// The account that this process uses in place of the stored active one.
pub fn get_active_account_override(runtime: &AccountRuntime) -> (r: Option<String>)
    ensures
        r == runtime.active_override,
{
    clone_opt(&runtime.active_override)
}

// ---------------------------------------------------------------------------
// Labels
//
// How labels are made, and how they are chosen among accounts, is the account
// store's business; it is the same for every kind of account.
// ---------------------------------------------------------------------------

/// The label of the first account, as the account store makes it from the prefix
/// and a number.
pub fn primary_account_label<F: Fn(&str, usize) -> String>(canonical: F) -> (r: String)
    requires
        call_requires(canonical, (ACCOUNT_LABEL_PREFIX, 1usize)),
    ensures
        call_ensures(canonical, (ACCOUNT_LABEL_PREFIX, 1usize), r),
{
    canonical(ACCOUNT_LABEL_PREFIX, 1)
}

/// The label of an account to come, as the account store makes it from the prefix
/// and the number of accounts.
pub fn next_account_label<F: Fn(&str, usize) -> String>(auth: &JcodeMuseAuthFile, next: F) -> (r:
    String)
    requires
        call_requires(next, (ACCOUNT_LABEL_PREFIX, auth.muse_accounts@.len() as usize)),
    ensures
        call_ensures(next, (ACCOUNT_LABEL_PREFIX, auth.muse_accounts@.len() as usize), r),
{
    next(ACCOUNT_LABEL_PREFIX, auth.muse_accounts.len())
}

/// The label that a login goes to, as the account store chooses it from the prefix,
/// the requested label and the accounts.
pub fn login_target_label<F: Fn(&str, Option<&str>, &JcodeMuseAuthFile) -> String>(
    requested: Option<&str>,
    auth: &JcodeMuseAuthFile,
    choose_label: F,
) -> (r: String)
    requires
        call_requires(choose_label, (ACCOUNT_LABEL_PREFIX, requested, auth)),
    ensures
        call_ensures(choose_label, (ACCOUNT_LABEL_PREFIX, requested, auth), r),
{
    choose_label(ACCOUNT_LABEL_PREFIX, requested, auth)
}

/// What the account store makes of the labels of accounts.
#[derive(Debug)]
pub struct Relabeled {
    pub auth: JcodeMuseAuthFile,
    /// Whether a label changed.
    pub changed: bool,
    /// The new label of the account that this process uses, if it changed.
    pub canonical_override_label: Option<String>,
}

/// The override after accounts were relabeled.
pub open spec fn override_after(out: Relabeled, before: Option<String>) -> Option<String> {
    match out.canonical_override_label {
        Some(label) => Some(label),
        None => before,
    }
}

/// Has the account store relabel the accounts, and lets the override follow.
/// Returns whether a label changed.
pub fn relabel_accounts<F: Fn(&str, &JcodeMuseAuthFile, &Option<String>) -> Relabeled>(
    auth: &mut JcodeMuseAuthFile,
    runtime: &mut AccountRuntime,
    relabel: F,
) -> (r: bool)
    requires
        call_requires(relabel, (ACCOUNT_LABEL_PREFIX, &*old(auth), &old(runtime).active_override)),
    ensures
        exists|out: Relabeled| #[trigger]
            call_ensures(
                relabel,
                (ACCOUNT_LABEL_PREFIX, &*old(auth), &old(runtime).active_override),
                out,
            ) && *final(auth) == out.auth && r == out.changed && final(runtime).active_override
                == override_after(out, old(runtime).active_override),
{
    let out: Relabeled = relabel(ACCOUNT_LABEL_PREFIX, &*auth, &runtime.active_override);
    if let Some(label) = out.canonical_override_label {
        set_active_account_override(runtime, Some(label));
    }
    *auth = out.auth;
    out.changed
}

/// Accounts that were read.
#[derive(Debug)]
pub struct LoadedAuth {
    pub auth: JcodeMuseAuthFile,
    /// Whether the accounts differ from what is stored, and are to be saved before
    /// they are used.
    pub must_save: bool,
}

/// Whether two files hold the same accounts in the same order, and the same one is
/// active.
pub open spec fn same_accounts(a: JcodeMuseAuthFile, b: JcodeMuseAuthFile) -> bool {
    &&& a.muse_accounts@ == b.muse_accounts@
    &&& a.active_muse_account == b.active_muse_account
}

/// Whether `loaded` is what loading makes of a stored file, or of none, and `after` the
/// override that it leaves where it was `before`.
pub open spec fn is_loaded<F: Fn(&str, &JcodeMuseAuthFile, &Option<String>) -> Relabeled>(
    loaded: LoadedAuth,
    after: Option<String>,
    stored: Option<JcodeMuseAuthFile>,
    before: Option<String>,
    relabel: F,
) -> bool {
    exists|auth: JcodeMuseAuthFile, out: Relabeled| #[trigger]
        call_ensures(relabel, (ACCOUNT_LABEL_PREFIX, &auth, &before), out) && (match stored {
            Some(s) => auth == s,
            None => auth.muse_accounts@.len() == 0 && auth.active_muse_account is None,
        }) && loaded.auth == out.auth && loaded.must_save == out.changed && after
            == override_after(out, before)
}

/// The accounts in a stored file, or none where there is no file, with their labels
/// brought up to date.
pub fn load_auth_file<F: Fn(&str, &JcodeMuseAuthFile, &Option<String>) -> Relabeled>(
    stored: Option<JcodeMuseAuthFile>,
    runtime: &mut AccountRuntime,
    relabel: F,
) -> (r: LoadedAuth)
    requires
        forall|auth: &JcodeMuseAuthFile| #[trigger]
            call_requires(relabel, (ACCOUNT_LABEL_PREFIX, auth, &old(runtime).active_override)),
    ensures
        is_loaded(
            r,
            final(runtime).active_override,
            stored,
            old(runtime).active_override,
            relabel,
        ),
{
    let mut auth: JcodeMuseAuthFile = match stored {
        Some(s) => s,
        None => JcodeMuseAuthFile::default(),
    };
    let must_save: bool = relabel_accounts(&mut auth, runtime, relabel);
    LoadedAuth { auth, must_save }
}

/// A copy of an account.
fn clone_account(a: &MuseAccount) -> (r: MuseAccount)
    ensures
        r == *a,
{
    MuseAccount {
        label: a.label.clone(),
        access_token: a.access_token.clone(),
        api_key: clone_opt(&a.api_key),
        refresh_token: clone_opt(&a.refresh_token),
        expires_at: a.expires_at,
        email: clone_opt(&a.email),
    }
}

/// The document that is written to save accounts: all of them, and which one is
/// active.
pub fn save_auth_file(auth: &JcodeMuseAuthFile) -> (r: JcodeMuseAuthFile)
    ensures
        same_accounts(r, *auth),
{
    let mut accounts: Vec<MuseAccount> = Vec::new();
    let mut i: usize = 0;
    while i < auth.muse_accounts.len()
        invariant
            i <= auth.muse_accounts@.len(),
            accounts@ == auth.muse_accounts@.take(i as int),
        decreases auth.muse_accounts@.len() - i,
    {
        accounts.push(clone_account(&auth.muse_accounts[i]));
        i += 1;
    }
    assert(accounts@ == auth.muse_accounts@);
    JcodeMuseAuthFile {
        muse_accounts: accounts,
        active_muse_account: clone_opt(&auth.active_muse_account),
    }
}

/// The accounts.
pub fn list_accounts(auth: JcodeMuseAuthFile) -> (r: Vec<MuseAccount>)
    ensures
        r == auth.muse_accounts,
{
    auth.muse_accounts
}

/// The label of the account in use, as the account store picks it from the override
/// and the accounts; nothing where the accounts cannot be read.
pub fn active_account_label<F: Fn(&Option<String>, &JcodeMuseAuthFile) -> Option<String>>(
    auth: Option<&JcodeMuseAuthFile>,
    runtime: &AccountRuntime,
    pick: F,
) -> (r: Option<String>)
    requires
        auth matches Some(a) ==> call_requires(pick, (&runtime.active_override, a)),
    ensures
        match auth {
            Some(a) => call_ensures(pick, (&runtime.active_override, a), r),
            None => r is None,
        },
{
    match auth {
        Some(a) => pick(&runtime.active_override, a),
        None => None,
    }
}

// ---------------------------------------------------------------------------
// Changing accounts
// ---------------------------------------------------------------------------

/// The index of the first account with the given label, or the number of accounts
/// if there is none.
pub open spec fn index_of_label(accounts: Seq<MuseAccount>, label: Seq<char>) -> int
    decreases accounts.len(),
{
    if accounts.len() == 0 || accounts[0].label@ == label {
        0
    } else {
        1 + index_of_label(accounts.skip(1), label)
    }
}

/// The first account with the given label.
pub open spec fn account_with_label(accounts: Seq<MuseAccount>, label: Seq<char>) -> Option<
    MuseAccount,
> {
    let i = index_of_label(accounts, label);
    if 0 <= i < accounts.len() {
        Some(accounts[i])
    } else {
        None
    }
}

/// Where `index_of_label` points: no account before it has the label, and the one
/// there has it unless it is the end.
proof fn lemma_index_of_label(accounts: Seq<MuseAccount>, label: Seq<char>)
    ensures
        0 <= index_of_label(accounts, label) <= accounts.len(),
        forall|k: int|
            0 <= k < index_of_label(accounts, label) ==> (#[trigger] accounts[k]).label@ != label,
        index_of_label(accounts, label) < accounts.len() ==> accounts[index_of_label(
            accounts,
            label,
        )].label@ == label,
    decreases accounts.len(),
{
    if accounts.len() > 0 && accounts[0].label@ != label {
        let rest = accounts.skip(1);
        lemma_index_of_label(rest, label);
        assert forall|k: int| 0 <= k < index_of_label(accounts, label) implies (
        #[trigger] accounts[k]).label@ != label by {
            if k > 0 {
                assert(rest[k - 1] == accounts[k]);
            }
        }
    }
}

fn find_account<'a>(accounts: &'a Vec<MuseAccount>, label: &str) -> (r: Option<&'a MuseAccount>)
    ensures
        match r {
            Some(a) => account_with_label(accounts@, label@) == Some(*a),
            None => account_with_label(accounts@, label@) is None,
        },
{
    let mut i: usize = 0;
    assert(accounts@.skip(0) == accounts@);
    while i < accounts.len()
        invariant
            i <= accounts@.len(),
            index_of_label(accounts@, label@) == i + index_of_label(
                accounts@.skip(i as int),
                label@,
            ),
        decreases accounts@.len() - i,
    {
        assert(accounts@.skip(i as int)[0] == accounts@[i as int]);
        if text_eq(accounts[i].label.as_str(), label) {
            return Some(&accounts[i]);
        }
        assert(accounts@.skip(i as int).skip(1) == accounts@.skip(i + 1));
        i += 1;
    }
    None
}

/// What is said where no account has a label.
pub open spec fn no_such_account(label: Seq<char>) -> Seq<char> {
    "No Muse account with label '"@ + label + "' found"@
}

fn no_account_message(label: &str) -> (r: String)
    ensures
        r@ == no_such_account(label@),
{
    let mut out: String = "No Muse account with label '".to_owned();
    out.append(label);
    out.append("' found");
    out
}

/// Makes an account the active one. The override of this process follows as soon
/// as the change is saved.
pub fn set_active_account(auth: &mut JcodeMuseAuthFile, label: &str) -> (r: Result<(), String>)
    ensures
        final(auth).muse_accounts == old(auth).muse_accounts,
        match r {
            Ok(()) => account_with_label(old(auth).muse_accounts@, label@) is Some && text::opt_view(
                final(auth).active_muse_account,
            ) == Some(label@),
            Err(message) => account_with_label(old(auth).muse_accounts@, label@) is None && message@
                == no_such_account(label@) && final(auth).active_muse_account
                == old(auth).active_muse_account,
        },
{
    if find_account(&auth.muse_accounts, label).is_none() {
        return Err(no_account_message(label));
    }
    auth.active_muse_account = Some(label.to_owned());
    Ok(())
}

/// Accounts after one was added or replaced.
#[derive(Debug)]
pub struct Upserted {
    pub auth: JcodeMuseAuthFile,
    /// The label that the account got.
    pub label: String,
}

/// Has the account store add or replace an account.
pub fn upsert_account<F: Fn(&str, &JcodeMuseAuthFile, MuseAccount) -> Upserted>(
    auth: &mut JcodeMuseAuthFile,
    account: MuseAccount,
    upsert: F,
) -> (r: String)
    requires
        call_requires(upsert, (ACCOUNT_LABEL_PREFIX, &*old(auth), account)),
    ensures
        exists|out: Upserted| #[trigger]
            call_ensures(upsert, (ACCOUNT_LABEL_PREFIX, &*old(auth), account), out) && *final(auth)
                == out.auth && r == out.label,
{
    let out: Upserted = upsert(ACCOUNT_LABEL_PREFIX, &*auth, account);
    *auth = out.auth;
    out.label
}

/// Whether an account has another label.
pub open spec fn labeled_otherwise(label: Seq<char>) -> spec_fn(MuseAccount) -> bool {
    |a: MuseAccount| a.label@ != label
}

/// The accounts without those that have the given label.
pub open spec fn without_label(accounts: Seq<MuseAccount>, label: Seq<char>) -> Seq<MuseAccount> {
    accounts.filter(labeled_otherwise(label))
}

/// The active account after a removal: the first remaining one, if the removed one
/// was active.
pub open spec fn active_after_removal(
    remaining: Seq<MuseAccount>,
    active: Option<Seq<char>>,
    label: Seq<char>,
) -> Option<Seq<char>> {
    if active != Some(label) {
        active
    } else if remaining.len() > 0 {
        Some(remaining[0].label@)
    } else {
        None
    }
}

/// Removes the accounts with the given label.
pub fn remove_account(auth: &mut JcodeMuseAuthFile, label: &str) -> (r: Result<(), String>)
    ensures
        final(auth).muse_accounts@ == without_label(old(auth).muse_accounts@, label@),
        match r {
            Ok(()) => {
                &&& account_with_label(old(auth).muse_accounts@, label@) is Some
                &&& text::opt_view(final(auth).active_muse_account) == active_after_removal(
                    without_label(old(auth).muse_accounts@, label@),
                    text::opt_view(old(auth).active_muse_account),
                    label@,
                )
            },
            Err(message) => {
                &&& account_with_label(old(auth).muse_accounts@, label@) is None
                &&& message@ == no_such_account(label@)
                &&& final(auth).muse_accounts@ == old(auth).muse_accounts@
                &&& final(auth).active_muse_account == old(auth).active_muse_account
            },
        },
{
    let ghost all = auth.muse_accounts@;
    let ghost keep = labeled_otherwise(label@);
    let mut kept: Vec<MuseAccount> = Vec::new();
    let mut i: usize = 0;
    while i < auth.muse_accounts.len()
        invariant
            i <= all.len(),
            auth.muse_accounts@ == all,
            auth.active_muse_account == old(auth).active_muse_account,
            keep == labeled_otherwise(label@),
            kept@ == all.take(i as int).filter(keep),
            kept@.len() <= i,
            kept@.len() == i <==> forall|k: int| 0 <= k < i ==> (#[trigger] all[k]).label@ != label@,
        decreases all.len() - i,
    {
        reveal(Seq::filter);
        assert(all.take(i + 1).drop_last() == all.take(i as int));
        assert(all.take(i + 1).last() == all[i as int]);
        if !text_eq(auth.muse_accounts[i].label.as_str(), label) {
            kept.push(clone_account(&auth.muse_accounts[i]));
        }
        i += 1;
    }
    assert(all.take(i as int) == all);
    proof {
        lemma_index_of_label(all, label@);
        let at = index_of_label(all, label@);
        if kept@.len() < all.len() {
            let k = choose|k: int| 0 <= k < all.len() && (#[trigger] all[k]).label@ == label@;
            if at == all.len() {
                assert(all[k].label@ != label@);
            }
        } else if at < all.len() {
            assert(all[at].label@ != label@);
        }
    }
    if kept.len() == auth.muse_accounts.len() {
        proof {
            lemma_filter_keeps_all(all, keep);
        }
        return Err(no_account_message(label));
    }
    auth.muse_accounts = kept;
    if opt_is(&auth.active_muse_account, label) {
        auth.active_muse_account = if auth.muse_accounts.len() > 0 {
            Some(auth.muse_accounts[0].label.clone())
        } else {
            None
        };
    }
    Ok(())
}

/// A filter that drops nothing keeps the sequence.
proof fn lemma_filter_keeps_all(s: Seq<MuseAccount>, keep: spec_fn(MuseAccount) -> bool)
    requires
        s.filter(keep).len() == s.len(),
    ensures
        s.filter(keep) == s,
    decreases s.len(),
{
    reveal(Seq::filter);
    if s.len() > 0 {
        s.drop_last().lemma_filter_len(keep);
        if keep(s.last()) {
            lemma_filter_keeps_all(s.drop_last(), keep);
            assert(s.drop_last().push(s.last()) == s);
        }
    }
}

/// The override after a removal: where the removed account was overriding, the active
/// one takes its place.
pub open spec fn override_after_removal(
    overriding: Option<Seq<char>>,
    active: Option<Seq<char>>,
    label: Seq<char>,
) -> Option<Seq<char>> {
    if overriding == Some(label) {
        active
    } else {
        overriding
    }
}

/// Lets the override of this process follow a removal, as soon as it is saved: where
/// the removed account was overriding, the active one takes its place.
pub fn settle_override_after_removal(
    runtime: &mut AccountRuntime,
    auth: &JcodeMuseAuthFile,
    label: &str,
)
    ensures
        text::opt_view(final(runtime).active_override) == override_after_removal(
            text::opt_view(old(runtime).active_override),
            text::opt_view(auth.active_muse_account),
            label@,
        ),
{
    if opt_is(&runtime.active_override, label) {
        set_active_account_override(runtime, clone_opt(&auth.active_muse_account));
    }
}

// ---------------------------------------------------------------------------
// The client's file
// ---------------------------------------------------------------------------

/// A text without the white space around it, unless nothing is left.
pub open spec fn nonblank(s: Option<Seq<char>>) -> Option<Seq<char>> {
    match s {
        Some(s) => if text::trimmed(s).len() > 0 {
            Some(text::trimmed(s))
        } else {
            None
        },
        None => None,
    }
}

fn nonblank_text(s: Option<&str>) -> (r: Option<String>)
    ensures
        text::opt_view(r) == nonblank(text::opt_str_view(s)),
{
    match s {
        Some(s) => {
            let t: String = trim_text(s);
            if t.as_str().is_empty() {
                None
            } else {
                Some(t)
            }
        },
        None => None,
    }
}

/// A place that is chosen: one that a setting names, or one of those to choose from.
/// `P` is the type of the latter.
#[derive(Debug)]
pub enum Place<P> {
    Named(String),
    Given(P),
}

/// Whether the choice is the place that a setting names.
pub open spec fn is_named<P>(place: Option<Place<P>>, name: Seq<char>) -> bool {
    place matches Some(Place::Named(n)) && n@ == name
}

/// Whether the choice is the given place; nothing where none is given.
pub open spec fn is_given<P>(place: Option<Place<P>>, given: Option<P>) -> bool {
    match given {
        Some(p) => place == Some(Place::Given(p)),
        None => place is None,
    }
}

/// The place of the client's file below the user's home.
pub const HOME_FILE: &'static str = ".config/muse/auth.json";

/// The file where the client keeps its credentials, unless it is overridden: below
/// the configuration directory, if that is set, else below the user's home.
/// `home_file` is the place below the home, if there is a home.
pub fn primary_external_path<P>(xdg_config_home: Option<&str>, home_file: Option<P>) -> (r: Option<
    Place<P>,
>)
    ensures
        match nonblank(text::opt_str_view(xdg_config_home)) {
            Some(dir) => is_named(r, paths::joined_path(dir, "muse/auth.json"@)),
            None => is_given(r, home_file),
        },
{
    match nonblank_text(xdg_config_home) {
        Some(dir) => Some(Place::Named(join_path(dir.as_str(), "muse/auth.json"))),
        None => match home_file {
            Some(f) => Some(Place::Given(f)),
            None => None,
        },
    }
}

/// The copy that stands in where the client's own file cannot be read.
pub open spec fn fallback_file(jcode_dir: Option<Seq<char>>) -> Option<Seq<char>> {
    match jcode_dir {
        Some(dir) => Some(paths::joined_path(dir, "muse-external.json"@)),
        None => None,
    }
}

/// The copy that stands in where the client's own file cannot be read.
pub fn fallback_external_path(jcode_dir: Option<&str>) -> (r: Option<String>)
    ensures
        text::opt_view(r) == fallback_file(text::opt_str_view(jcode_dir)),
{
    match jcode_dir {
        Some(dir) => Some(join_path(dir, "muse-external.json")),
        None => None,
    }
}

/// The file that the accounts are kept in.
pub fn jcode_muse_auth_path(jcode_dir: &str) -> (r: String)
    ensures
        r@ == paths::joined_path(jcode_dir@, "muse-auth.json"@),
{
    join_path(jcode_dir, "muse-auth.json")
}

/// The client's file: an explicit path wins; else the primary file, or the copy
/// where only that can be read. Nothing where no place is known.
///
/// The `_readable` flags say whether the primary file and the copy can be read.
pub fn external_muse_auth_path<P>(
    muse_auth_path: Option<&str>,
    primary: Option<P>,
    primary_readable: bool,
    fallback: Option<P>,
    fallback_readable: bool,
) -> (r: Option<Place<P>>)
    ensures
        match nonblank(text::opt_str_view(muse_auth_path)) {
            Some(path) => is_named(r, path),
            None => if primary is Some && !primary_readable && fallback is Some
                && fallback_readable {
                is_given(r, fallback)
            } else {
                is_given(r, primary)
            },
        },
{
    if let Some(path) = nonblank_text(muse_auth_path) {
        return Some(Place::Named(path));
    }
    let primary: P = match primary {
        Some(p) => p,
        None => {
            return None;
        },
    };
    if primary_readable {
        return Some(Place::Given(primary));
    }
    if let Some(f) = fallback {
        if fallback_readable {
            return Some(Place::Given(f));
        }
    }
    Some(Place::Given(primary))
}

/// The consent that lets a file be read from now on.
#[derive(Debug)]
pub struct ConsentGrant<P> {
    pub source_id: &'static str,
    pub path: P,
}

/// The consent that is recorded when the client's file is trusted; nothing where no
/// place is known.
pub fn trust_external_auth_for_future_use<P>(path: Option<P>) -> (r: Option<ConsentGrant<P>>)
    ensures
        match path {
            Some(p) => r matches Some(grant) && grant.source_id@ == MUSE_AUTH_SOURCE_ID@
                && grant.path == p,
            None => r is None,
        },
{
    match path {
        Some(path) => Some(ConsentGrant { source_id: MUSE_AUTH_SOURCE_ID, path }),
        None => None,
    }
}

/// Whether consent to read the client's file was given, as the configuration says
/// of the source and the path.
pub fn external_auth_allowed<P, F: Fn(&str, &P) -> bool>(path: Option<&P>, allowed: F) -> (r: bool)
    requires
        path matches Some(p) ==> call_requires(allowed, (MUSE_AUTH_SOURCE_ID, p)),
    ensures
        match path {
            Some(p) => call_ensures(allowed, (MUSE_AUTH_SOURCE_ID, p), r),
            None => !r,
        },
{
    match path {
        Some(p) => allowed(MUSE_AUTH_SOURCE_ID, p),
        None => false,
    }
}

/// Whether the client's file exists: `path_exists` is what is found at its path, or
/// nothing where no place is known.
pub fn external_auth_source_exists(path_exists: Option<bool>) -> (r: bool)
    ensures
        r == (path_exists == Some(true)),
{
    match path_exists {
        Some(b) => b,
        None => false,
    }
}

/// The client's file, if it exists, holds credentials, and nobody consented to its
/// being read.
pub fn has_unconsented_external_auth<P>(
    path: Option<P>,
    exists: bool,
    allowed: bool,
    holds_credentials: bool,
) -> (r: Option<P>)
    ensures
        r == (if exists && !allowed && holds_credentials {
            path
        } else {
            None
        }),
{
    match path {
        Some(p) => if exists && !allowed && holds_credentials {
            Some(p)
        } else {
            None
        },
        None => None,
    }
}

/// What the client's file says of the provider.
#[derive(Debug)]
pub struct MetaEntry {
    pub mechanism: Option<String>,
    pub access_token: Option<String>,
    pub api_key: Option<String>,
    /// The time of expiry, where it is written as a number.
    pub expires_number: Option<i64>,
    /// The time of expiry, where it is written as a text.
    pub expires_text: Option<String>,
}

/// The provider's entry in a document: its member `providers`, and there `meta`.
pub open spec fn meta_of(document: Value) -> Option<Value> {
    match json::member(document, "providers"@) {
        Some(providers) => json::member(providers, "meta"@),
        None => None,
    }
}

/// What an entry says, apart from how it is represented.
pub struct MetaFields {
    pub mechanism: Option<Seq<char>>,
    pub access_token: Option<Seq<char>>,
    pub api_key: Option<Seq<char>>,
    pub expires_number: Option<int>,
    pub expires_text: Option<Seq<char>>,
}

/// An optional machine integer as a mathematical one.
pub open spec fn opt_int(n: Option<i64>) -> Option<int> {
    match n {
        Some(n) => Some(n as int),
        None => None,
    }
}

impl View for MetaEntry {
    type V = MetaFields;

    open spec fn view(&self) -> MetaFields {
        MetaFields {
            mechanism: text::opt_view(self.mechanism),
            access_token: text::opt_view(self.access_token),
            api_key: text::opt_view(self.api_key),
            expires_number: opt_int(self.expires_number),
            expires_text: text::opt_view(self.expires_text),
        }
    }
}

/// What a value says as the provider's entry.
pub open spec fn fields_of(meta: Value) -> MetaFields {
    MetaFields {
        mechanism: json::member_text(meta, "mechanism"@),
        access_token: json::member_text(meta, "access_token"@),
        api_key: json::member_text(meta, "api_key"@),
        expires_number: json::member_integer(meta, "expires_at"@),
        expires_text: json::member_text(meta, "expires_at"@),
    }
}

/// The provider's entry in a document.
pub fn meta_entry(document: &Value) -> (r: Option<MetaEntry>)
    ensures
        match r {
            Some(entry) => meta_of(*document) is Some && entry@ == fields_of(
                meta_of(*document)->0,
            ),
            None => meta_of(*document) is None,
        },
{
    let providers: &Value = match get_member(document, "providers") {
        Some(v) => v,
        None => {
            return None;
        },
    };
    let meta: &Value = match get_member(providers, "meta") {
        Some(v) => v,
        None => {
            return None;
        },
    };
    Some(
        MetaEntry {
            mechanism: get_text(meta, "mechanism"),
            access_token: get_text(meta, "access_token"),
            api_key: get_text(meta, "api_key"),
            expires_number: get_i64(meta, "expires_at"),
            expires_text: get_text(meta, "expires_at"),
        },
    )
}

/// Whether a key is one for inference.
pub open spec fn is_inference_key(key: Seq<char>) -> bool {
    "LLM|"@.is_prefix_of(key)
}

/// The access token of an entry without the white space around it.
pub open spec fn entry_token(entry: MetaFields) -> Seq<char> {
    match entry.access_token {
        Some(t) => text::trimmed(t),
        None => Seq::empty(),
    }
}

/// The inference key of an entry without the white space around it.
pub open spec fn entry_key(entry: MetaFields) -> Option<Seq<char>> {
    match entry.api_key {
        Some(k) => if is_inference_key(text::trimmed(k)) {
            Some(text::trimmed(k))
        } else {
            None
        },
        None => None,
    }
}

/// The time of expiry of an entry: a number, or a text that denotes one.
pub open spec fn entry_expiry(entry: MetaFields) -> Option<int> {
    match (entry.expires_number, entry.expires_text) {
        (Some(n), _) => Some(n),
        (None, Some(s)) => text::number_in(s, i64::MIN as int, i64::MAX as int),
        (None, None) => None,
    }
}

/// Whether an entry holds credentials: it was made by OAuth, and has an inference
/// key or an access token.
pub open spec fn holds_credentials(entry: MetaFields) -> bool {
    &&& entry.mechanism == Some("oauth"@)
    &&& entry_key(entry) is Some || entry_token(entry).len() > 0
}

/// Whether credentials are those of an entry. The key stands in for a missing
/// token.
pub open spec fn are_entry_credentials(c: MuseCredentials, entry: MetaFields) -> bool {
    &&& c.access_token@ == (if entry_token(entry).len() > 0 {
        entry_token(entry)
    } else {
        entry_key(entry)->0
    })
    &&& text::opt_view(c.api_key) == entry_key(entry)
    &&& opt_int(c.expires_at) == entry_expiry(entry)
}

fn inference_key(key: &Option<String>) -> (r: Option<String>)
    ensures
        text::opt_view(r) == (match *key {
            Some(k) => if is_inference_key(text::trimmed(k@)) {
                Some(text::trimmed(k@))
            } else {
                None
            },
            None => None,
        }),
{
    match key {
        Some(k) => {
            let t: String = trim_text(k.as_str());
            if starts_with(t.as_str(), "LLM|") {
                Some(t)
            } else {
                None
            }
        },
        None => None,
    }
}

/// The credentials of an entry.
pub fn entry_credentials(entry: &MetaEntry) -> (r: Option<MuseCredentials>)
    ensures
        match r {
            Some(c) => holds_credentials(entry@) && are_entry_credentials(c, entry@),
            None => !holds_credentials(entry@),
        },
{
    if !opt_is(&entry.mechanism, "oauth") {
        return None;
    }
    let access: String = match &entry.access_token {
        Some(t) => trim_text(t.as_str()),
        None => String::new(),
    };
    let api_key: Option<String> = inference_key(&entry.api_key);
    if api_key.is_none() && access.as_str().is_empty() {
        return None;
    }
    let expires_at: Option<i64> = match entry.expires_number {
        Some(n) => Some(n),
        None => match &entry.expires_text {
            Some(s) => parse_i64(&chars_of(s.as_str())),
            None => None,
        },
    };
    let access_token: String = if access.as_str().is_empty() {
        match &api_key {
            Some(k) => k.clone(),
            None => String::new(),
        }
    } else {
        access
    };
    Some(MuseCredentials { access_token, api_key, expires_at })
}

/// Whether an entry holds credentials.
pub fn entry_has_credentials(entry: &MetaEntry) -> (r: bool)
    ensures
        r == holds_credentials(entry@),
{
    let has_oauth: bool = opt_is(&entry.mechanism, "oauth");
    let has_api_key: bool = inference_key(&entry.api_key).is_some();
    let has_access: bool = match &entry.access_token {
        Some(t) => !trim_text(t.as_str()).as_str().is_empty(),
        None => false,
    };
    has_oauth && (has_api_key || has_access)
}

/// What the text of the client's file says of the provider.
pub open spec fn entry_in(data: Seq<char>) -> Option<MetaFields> {
    match json::json_document(data) {
        Some(document) => match meta_of(document) {
            Some(meta) => Some(fields_of(meta)),
            None => None,
        },
        None => None,
    }
}

/// Whether the text of the client's file holds credentials.
pub open spec fn text_holds_credentials(data: Seq<char>) -> bool {
    entry_in(data) matches Some(entry) && holds_credentials(entry)
}

/// The credentials in the text of the client's file.
pub fn parse_external_muse_blob(data: &str) -> (r: Option<MuseCredentials>)
    ensures
        match r {
            Some(c) => text_holds_credentials(data@) && are_entry_credentials(
                c,
                entry_in(data@)->0,
            ),
            None => !text_holds_credentials(data@),
        },
{
    match parse_json(data) {
        Ok(document) => match meta_entry(&document) {
            Some(entry) => entry_credentials(&entry),
            None => None,
        },
        Err(_) => None,
    }
}

/// Whether the text of the client's file holds credentials; an error where it is not
/// JSON.
pub fn load_external_file_has_muse(data: &str) -> (r: Result<bool, serde_json::Error>)
    ensures
        match r {
            Ok(held) => json::json_document(data@) is Some && held == text_holds_credentials(data@),
            Err(_) => json::json_document(data@) is None,
        },
{
    match parse_json(data) {
        Ok(document) => match meta_entry(&document) {
            Some(entry) => Ok(entry_has_credentials(&entry)),
            None => Ok(false),
        },
        Err(e) => Err(e),
    }
}

/// Whether the client's file holds credentials. `data` is its text, or nothing where
/// it cannot be read.
pub fn external_source_has_muse_auth(data: Option<&str>) -> (r: bool)
    ensures
        r == (data is Some && text_holds_credentials(data->0@)),
{
    match data {
        Some(d) => match load_external_file_has_muse(d) {
            Ok(held) => held,
            Err(_) => false,
        },
        None => false,
    }
}

/// The credentials in the client's file, if consent was given. `data` is its text,
/// or nothing where it cannot be read.
pub fn load_external_muse_credentials(allowed: bool, data: Option<&str>) -> (r: Option<
    MuseCredentials,
>)
    ensures
        match r {
            Some(c) => allowed && data is Some && text_holds_credentials(data->0@)
                && are_entry_credentials(c, entry_in(data->0@)->0),
            None => !(allowed && data is Some && text_holds_credentials(data->0@)),
        },
{
    if !allowed {
        return None;
    }
    match data {
        Some(d) => parse_external_muse_blob(d),
        None => None,
    }
}

// ---------------------------------------------------------------------------
// Choosing credentials
// ---------------------------------------------------------------------------

/// Whether credentials are those of an account.
pub open spec fn are_account_credentials(c: MuseCredentials, account: MuseAccount) -> bool {
    &&& c.access_token == account.access_token
    &&& c.api_key == account.api_key
    &&& c.expires_at == account.expires_at
}

fn account_credentials(account: &MuseAccount) -> (r: MuseCredentials)
    ensures
        are_account_credentials(r, *account),
{
    MuseCredentials {
        access_token: account.access_token.clone(),
        api_key: clone_opt(&account.api_key),
        expires_at: account.expires_at,
    }
}

/// The account in use: the one with the active label, or with the primary one where
/// none is active; the first account where no account has that label.
pub open spec fn account_in_use(
    accounts: Seq<MuseAccount>,
    active: Option<Seq<char>>,
    primary: Seq<char>,
) -> Option<MuseAccount> {
    let label = match active {
        Some(l) => l,
        None => primary,
    };
    match account_with_label(accounts, label) {
        Some(a) => Some(a),
        None => if accounts.len() > 0 {
            Some(accounts[0])
        } else {
            None
        },
    }
}

/// The credentials of the account in use; nothing where there is no account, or the
/// accounts cannot be read.
pub fn jcode_credentials(
    auth: Option<&JcodeMuseAuthFile>,
    active_label: Option<&str>,
    primary_label: &str,
) -> (r: Option<MuseCredentials>)
    ensures
        match auth {
            None => r is None,
            Some(a) => match account_in_use(
                a.muse_accounts@,
                text::opt_str_view(active_label),
                primary_label@,
            ) {
                Some(account) => r matches Some(c) && are_account_credentials(c, account),
                None => r is None,
            },
        },
{
    let auth: &JcodeMuseAuthFile = match auth {
        Some(a) => a,
        None => {
            return None;
        },
    };
    let label: &str = match active_label {
        Some(l) => l,
        None => primary_label,
    };
    match find_account(&auth.muse_accounts, label) {
        Some(account) => Some(account_credentials(account)),
        None => if auth.muse_accounts.len() > 0 {
            Some(account_credentials(&auth.muse_accounts[0]))
        } else {
            None
        },
    }
}

/// The time of expiry in milliseconds. Times that can only be seconds are converted.
pub open spec fn expiry_millis(expires_at: int) -> int {
    if expires_at < 10_000_000_000 {
        expires_at * 1000
    } else {
        expires_at
    }
}

/// Whether credentials are expired at a time in milliseconds, or will be within a
/// minute. Credentials without a time of expiry never are.
pub open spec fn expired_by(c: MuseCredentials, now: int) -> bool {
    c.expires_at matches Some(exp) && expiry_millis(exp as int) <= now + 60_000
}

/// Whether credentials are expired at a time in milliseconds, or will be within a
/// minute.
pub fn expired_at(creds: &MuseCredentials, now: i64) -> (r: bool)
    ensures
        r == expired_by(*creds, now as int),
{
    match creds.expires_at {
        Some(exp) => {
            let exp_ms: i128 = if exp < 10_000_000_000 {
                exp as i128 * 1000
            } else {
                exp as i128
            };
            exp_ms <= now as i128 + 60_000
        },
        None => false,
    }
}

/// The latest time that the clock can show, in milliseconds since the epoch: the last
/// of the year 262142, the last year of `chrono`'s calendar.
pub const LATEST_MILLIS: i64 = 8_210_266_876_799_999;

/// Whether the clock can show a time in milliseconds.
pub open spec fn is_clock_time(now: int) -> bool {
    0 <= now <= LATEST_MILLIS
}

/// Whether credentials are not expired at any time that the clock can show.
pub open spec fn never_expires(c: MuseCredentials) -> bool {
    c.expires_at matches Some(exp) ==> expiry_millis(exp as int) > LATEST_MILLIS + 60_000
}

/// Whether credentials are expired at every time that the clock can show.
pub open spec fn ever_expired(c: MuseCredentials) -> bool {
    c.expires_at matches Some(exp) && expiry_millis(exp as int) <= 60_000
}

/// `chrono::Utc::now` and `DateTime::timestamp_millis`: the time on the machine's
/// clock, in milliseconds since the epoch. It is never before the epoch, nor after the
/// last year of `chrono`'s calendar: `now` panics where the clock is.
#[verifier::external_body]
pub(crate) fn now_millis() -> (r: i64)
    ensures
        0 <= r <= LATEST_MILLIS,
{
    chrono::Utc::now().timestamp_millis()
}

/// Whether a time is one that the clock showed when it was read.
pub closed spec fn clock_showed(now: i64) -> bool {
    call_ensures(now_millis, (), now)
}

/// What the clock showed was read from it, and lies in its range.
pub(crate) proof fn what_the_clock_showed_was_read(now: i64)
    ensures
        clock_showed(now) <==> call_ensures(now_millis, (), now),
        clock_showed(now) ==> is_clock_time(now as int),
{
}

/// A time at which to judge credentials: what the clock shows, if they have a time of
/// expiry to compare with it. Otherwise every time gives the same, and the clock is
/// not read.
fn time_for(creds: Option<&MuseCredentials>) -> (r: i64)
    ensures
        is_clock_time(r as int),
        creds is Some && creds->0.expires_at is Some ==> call_ensures(now_millis, (), r)
            && clock_showed(r),
{
    match creds {
        Some(c) => if c.expires_at.is_some() {
            now_millis()
        } else {
            0
        },
        None => 0,
    }
}

/// Whether credentials are expired now, or will be within a minute. The clock is read
/// only for those that have a time of expiry.
pub fn is_expired(creds: &MuseCredentials) -> (r: bool)
    ensures
        exists|now: int| is_clock_time(now) && r == #[trigger] expired_by(*creds, now),
        creds.expires_at is Some ==> exists|now: i64| #[trigger]
            clock_showed(now) && r == expired_by(*creds, now as int),
        never_expires(*creds) ==> !r,
        ever_expired(*creds) ==> r,
{
    let now: i64 = time_for(Some(creds));
    expired_at(creds, now)
}

/// Whether credentials hold something to authorize with: an inference key, or an
/// access token that is not blank.
pub open spec fn has_key(c: MuseCredentials) -> bool {
    ||| c.api_key matches Some(k) && is_inference_key(text::trimmed(k@))
    ||| text::trimmed(c.access_token@).len() > 0
}

/// Whether credentials hold something to authorize with.
pub fn holds_key(creds: &MuseCredentials) -> (r: bool)
    ensures
        r == has_key(*creds),
{
    inference_key(&creds.api_key).is_some() || !trim_text(
        creds.access_token.as_str(),
    ).as_str().is_empty()
}

/// Whether there are credentials that can be used at a time in milliseconds.
pub open spec fn usable(c: Option<&MuseCredentials>, now: int) -> bool {
    c matches Some(c) && has_key(*c) && !expired_by(*c, now)
}

/// Whether the first credentials can be used at one time, or the second ones at
/// another.
pub open spec fn either_usable(
    own: Option<&MuseCredentials>,
    external: Option<&MuseCredentials>,
    first: int,
    second: int,
) -> bool {
    usable(own, first) || usable(external, second)
}

/// Whether credentials are to be judged at a time: where they hold a key and have a
/// time of expiry, the clock showed it.
pub open spec fn is_time_for(c: Option<&MuseCredentials>, now: i64) -> bool {
    &&& is_clock_time(now as int)
    &&& c is Some && has_key(*c->0) && c->0.expires_at is Some ==> clock_showed(now)
}

/// Whether there are no credentials that can be used at any time that the clock can
/// show.
pub open spec fn is_unusable(c: Option<&MuseCredentials>) -> bool {
    c matches Some(c) ==> !has_key(*c) || ever_expired(*c)
}

/// Whether there are credentials that can be used at a time in milliseconds.
pub fn usable_at(creds: Option<&MuseCredentials>, now: i64) -> (r: bool)
    ensures
        r == usable(creds, now as int),
{
    match creds {
        Some(c) => holds_key(c) && !expired_at(c, now),
        None => false,
    }
}

/// Whether there are credentials that can be used now. The clock is read only for
/// those that hold a key and have a time of expiry.
fn usable_now(creds: Option<&MuseCredentials>) -> (r: bool)
    ensures
        exists|now: i64| #[trigger] is_time_for(creds, now) && r == usable(creds, now as int),
{
    let timed: Option<&MuseCredentials> = match creds {
        Some(c) => if holds_key(c) {
            Some(c)
        } else {
            None
        },
        None => None,
    };
    let now: i64 = time_for(timed);
    assert(is_time_for(creds, now));
    usable_at(creds, now)
}

/// Whether there are credentials that can be used now: those of the account in use,
/// or those of the client. The clock is read for each that holds a key and has a time
/// of expiry.
pub fn has_muse_credentials(
    own: Option<&MuseCredentials>,
    external: Option<&MuseCredentials>,
) -> (r: bool)
    ensures
        exists|first: int, second: int|
            is_clock_time(first) && is_clock_time(second) && r == #[trigger] either_usable(
                own,
                external,
                first,
                second,
            ),
        own is Some && has_key(*own->0) && never_expires(*own->0) ==> r,
        external is Some && has_key(*external->0) && never_expires(*external->0) ==> r,
        is_unusable(own) && is_unusable(external) ==> !r,
        r ==> {
            ||| exists|now: i64| #[trigger] is_time_for(own, now) && usable(own, now as int)
            ||| exists|now: i64| #[trigger]
                is_time_for(external, now) && usable(external, now as int)
        },
        !r ==> {
            &&& exists|now: i64| #[trigger] is_time_for(own, now) && !usable(own, now as int)
            &&& exists|now: i64| #[trigger]
                is_time_for(external, now) && !usable(external, now as int)
        },
{
    if usable_now(own) {
        proof {
            let first = choose|now: i64| #[trigger]
                is_time_for(own, now) && usable(own, now as int);
            assert(either_usable(own, external, first as int, first as int));
        }
        return true;
    }
    let r: bool = usable_now(external);
    proof {
        let first = choose|now: i64| #[trigger]
            is_time_for(own, now) && !usable(own, now as int);
        let second = choose|now: i64| #[trigger]
            is_time_for(external, now) && r == usable(external, now as int);
        assert(r == either_usable(own, external, first as int, second as int));
    }
    r
}

/// The same as `has_muse_credentials`, for callers that ask often.
pub fn has_muse_credentials_fast(
    own: Option<&MuseCredentials>,
    external: Option<&MuseCredentials>,
) -> (r: bool)
    ensures
        exists|first: int, second: int|
            is_clock_time(first) && is_clock_time(second) && r == #[trigger] either_usable(
                own,
                external,
                first,
                second,
            ),
        own is Some && has_key(*own->0) && never_expires(*own->0) ==> r,
        external is Some && has_key(*external->0) && never_expires(*external->0) ==> r,
        is_unusable(own) && is_unusable(external) ==> !r,
        r ==> {
            ||| exists|now: i64| #[trigger] is_time_for(own, now) && usable(own, now as int)
            ||| exists|now: i64| #[trigger]
                is_time_for(external, now) && usable(external, now as int)
        },
        !r ==> {
            &&& exists|now: i64| #[trigger] is_time_for(own, now) && !usable(own, now as int)
            &&& exists|now: i64| #[trigger]
                is_time_for(external, now) && !usable(external, now as int)
        },
{
    has_muse_credentials(own, external)
}

/// Why there are no credentials.
#[derive(Debug, Clone, Copy, PartialEq, Eq, Structural)]
pub enum CredentialError {
    /// Those of the account in use are expired.
    Expired,
    /// Those of the client are expired.
    ExternalExpired,
    /// There are none.
    Missing,
}

/// The words in which an error is reported.
pub open spec fn credential_error_text(e: CredentialError) -> Seq<char> {
    match e {
        CredentialError::Expired =>
        "Muse OAuth token is expired. Run `jcode login --provider muse` to refresh."@,
        CredentialError::ExternalExpired =>
        "Muse CLI OAuth token is expired. Run `muse login` then `jcode login --provider muse` or re-approve the external source."@,
        CredentialError::Missing =>
        "No Muse OAuth credentials found. Run `jcode login --provider muse` or `muse login` then approve the import."@,
    }
}

impl CredentialError {
    /// The words in which the error is reported.
    pub fn message(self) -> (r: String)
        ensures
            r@ == credential_error_text(self),
    {
        let text: &str = match self {
            CredentialError::Expired =>
            "Muse OAuth token is expired. Run `jcode login --provider muse` to refresh.",
            CredentialError::ExternalExpired =>
            "Muse CLI OAuth token is expired. Run `muse login` then `jcode login --provider muse` or re-approve the external source.",
            CredentialError::Missing =>
            "No Muse OAuth credentials found. Run `jcode login --provider muse` or `muse login` then approve the import.",
        };
        text.to_owned()
    }
}

/// The credentials to use at a time in milliseconds, or why there are none. Those
/// of the account in use come first, if they hold a key; they are not passed over
/// for being expired.
pub open spec fn chosen_credentials(
    own: Option<MuseCredentials>,
    external: Option<MuseCredentials>,
    now: int,
) -> Result<MuseCredentials, CredentialError> {
    if own is Some && has_key(own->0) {
        if expired_by(own->0, now) {
            Err(CredentialError::Expired)
        } else {
            Ok(own->0)
        }
    } else if external is Some {
        if expired_by(external->0, now) {
            Err(CredentialError::ExternalExpired)
        } else {
            Ok(external->0)
        }
    } else {
        Err(CredentialError::Missing)
    }
}

/// The credentials to use at a time in milliseconds, or why there are none.
pub fn choose_credentials(
    own: Option<MuseCredentials>,
    external: Option<MuseCredentials>,
    now: i64,
) -> (r: Result<MuseCredentials, CredentialError>)
    ensures
        r == chosen_credentials(own, external, now as int),
{
    if let Some(c) = own {
        if holds_key(&c) {
            if expired_at(&c, now) {
                return Err(CredentialError::Expired);
            }
            return Ok(c);
        }
    }
    if let Some(c) = external {
        if expired_at(&c, now) {
            return Err(CredentialError::ExternalExpired);
        }
        return Ok(c);
    }
    Err(CredentialError::Missing)
}

/// The credentials to use now, or why there are none. The clock is read only where
/// those that decide have a time of expiry.
pub fn load_credentials(own: Option<MuseCredentials>, external: Option<MuseCredentials>) -> (r:
    Result<MuseCredentials, CredentialError>)
    ensures
        exists|now: int|
            is_clock_time(now) && r == #[trigger] chosen_credentials(own, external, now),
        own is Some && has_key(own->0) ==> {
            &&& never_expires(own->0) ==> r is Ok && r->Ok_0 == own->0
            &&& ever_expired(own->0) ==> r is Err && r->Err_0 == CredentialError::Expired
        },
        !(own is Some && has_key(own->0)) && external is Some ==> {
            &&& never_expires(external->0) ==> r is Ok && r->Ok_0 == external->0
            &&& ever_expired(external->0) ==> r is Err && r->Err_0
                == CredentialError::ExternalExpired
        },
        !(own is Some && has_key(own->0)) && external is None ==> r is Err && r->Err_0
            == CredentialError::Missing,
        own is Some && has_key(own->0) && own->0.expires_at is Some ==> exists|now: i64| #[trigger]
            clock_showed(now) && r == chosen_credentials(own, external, now as int),
        !(own is Some && has_key(own->0)) && external is Some && external->0.expires_at is Some
            ==> exists|now: i64| #[trigger]
            clock_showed(now) && r == chosen_credentials(own, external, now as int),
{
    let deciding: Option<&MuseCredentials> = match &own {
        Some(c) => if holds_key(c) {
            Some(c)
        } else {
            external.as_ref()
        },
        None => external.as_ref(),
    };
    let now: i64 = time_for(deciding);
    choose_credentials(own, external, now)
}

/// The credentials of the account with the given label.
pub fn load_credentials_for_account(auth: &JcodeMuseAuthFile, label: &str) -> (r: Result<
    MuseCredentials,
    String,
>)
    ensures
        match account_with_label(auth.muse_accounts@, label@) {
            Some(account) => r matches Ok(c) && are_account_credentials(c, account),
            None => r matches Err(message) && message@ == no_such_account(label@),
        },
{
    match find_account(&auth.muse_accounts, label) {
        Some(account) => Ok(account_credentials(account)),
        None => Err(no_account_message(label)),
    }
}

// ---------------------------------------------------------------------------
// Laws
// ---------------------------------------------------------------------------

/// Accounts whose labels are in order come back as they were saved, and are not saved
/// again. As what is stored stays the same, a second load gives the same.
///
/// The labels are in order where the account store reports no change and hands the
/// accounts back as they were, with the override that each load finds.
pub proof fn saved_accounts_are_loaded<
    F: Fn(&str, &JcodeMuseAuthFile, &Option<String>) -> Relabeled,
>(
    accounts: JcodeMuseAuthFile,
    saved: JcodeMuseAuthFile,
    relabel: F,
    before: Option<String>,
    first: LoadedAuth,
    between: Option<String>,
    stored: JcodeMuseAuthFile,
    second: LoadedAuth,
    after: Option<String>,
)
    requires
        same_accounts(saved, accounts),
        same_accounts(stored, saved),
        forall|auth: JcodeMuseAuthFile, overriding: Option<String>, out: Relabeled| #[trigger]
            call_ensures(relabel, (ACCOUNT_LABEL_PREFIX, &auth, &overriding), out) && same_accounts(
                auth,
                accounts,
            ) && (overriding == before || overriding == between) ==> !out.changed && same_accounts(
                out.auth,
                accounts,
            ),
        is_loaded(first, between, Some(saved), before, relabel),
        is_loaded(second, after, Some(stored), between, relabel),
    ensures
        same_accounts(first.auth, accounts),
        !first.must_save,
        same_accounts(second.auth, accounts),
        !second.must_save,
{
}

/// No account with the removed label is left, and every other account is kept.
pub proof fn removal_removes_exactly_the_label(accounts: Seq<MuseAccount>, label: Seq<char>)
    ensures
        account_with_label(without_label(accounts, label), label) is None,
        forall|a: MuseAccount|
            without_label(accounts, label).contains(a) <==> accounts.contains(a) && a.label@
                != label,
{
    broadcast use vstd::seq_lib::group_filter_ensures;

    let keep = labeled_otherwise(label);
    let rest = without_label(accounts, label);
    lemma_index_of_label(rest, label);
    let i = index_of_label(rest, label);
    if i < rest.len() {
        assert(keep(rest[i]));
    }
    assert forall|a: MuseAccount| rest.contains(a) <==> accounts.contains(a) && a.label@
        != label by {
        if rest.contains(a) {
            let k = choose|k: int| 0 <= k < rest.len() && rest[k] == a;
            assert(keep(rest[k]));
            accounts.lemma_filter_contains_rev(keep, a);
        }
        if accounts.contains(a) && a.label@ != label {
            assert(keep(a));
        }
    }
}

/// After a removal the removed account is neither active nor overriding, and an
/// active account still exists where the active one existed before.
pub proof fn removal_leaves_no_dangling_account(
    accounts: Seq<MuseAccount>,
    active: Option<Seq<char>>,
    overriding: Option<Seq<char>>,
    label: Seq<char>,
)
    ensures
        active_after_removal(without_label(accounts, label), active, label) != Some(label),
        override_after_removal(
            overriding,
            active_after_removal(without_label(accounts, label), active, label),
            label,
        ) != Some(label),
        (active matches Some(l) ==> account_with_label(accounts, l) is Some) ==> (
        active_after_removal(without_label(accounts, label), active, label) matches Some(l)
            ==> account_with_label(without_label(accounts, label), l) is Some),
{
    let rest = without_label(accounts, label);
    removal_removes_exactly_the_label(accounts, label);
    if rest.len() > 0 {
        assert(rest.contains(rest[0]));
        lemma_index_of_label(rest, rest[0].label@);
    }
    if active is Some && active != Some(label) {
        let l = active->0;
        lemma_index_of_label(accounts, l);
        lemma_index_of_label(rest, l);
        let i = index_of_label(accounts, l);
        if i < accounts.len() {
            assert(accounts.contains(accounts[i]));
            assert(rest.contains(accounts[i]));
            let k = choose|k: int| 0 <= k < rest.len() && rest[k] == accounts[i];
            if index_of_label(rest, l) == rest.len() {
                assert(rest[k].label@ != l);
            }
        }
    }
}

/// Credentials that are read from the client's file always hold a key, so they need
/// no further look at it.
pub proof fn imported_credentials_hold_a_key(c: MuseCredentials, entry: MetaFields)
    requires
        holds_credentials(entry),
        are_entry_credentials(c, entry),
    ensures
        has_key(c),
{
    if entry_token(entry).len() > 0 {
        text::lemma_trim_twice(entry.access_token->0, text::CharClass::White);
    } else {
        text::lemma_trim_twice(entry.api_key->0, text::CharClass::White);
    }
}

/// Credentials that are chosen hold a key, where the client's do, and are not
/// expired.
pub proof fn chosen_credentials_are_usable(
    own: Option<MuseCredentials>,
    external: Option<MuseCredentials>,
    now: int,
)
    requires
        external matches Some(c) ==> has_key(c),
    ensures
        chosen_credentials(own, external, now) matches Ok(c) ==> usable(Some(&c), now),
{
}

/// Credentials can be chosen only where some are usable; and where some are, they
/// are chosen, unless those of the account in use hold a key but are expired.
pub proof fn choice_agrees_with_availability(
    own: Option<MuseCredentials>,
    external: Option<MuseCredentials>,
    now: int,
)
    requires
        external matches Some(c) ==> has_key(c),
        !(own matches Some(c) && has_key(c) && expired_by(c, now)),
    ensures
        chosen_credentials(own, external, now) is Ok <==> usable(
            match own {
                Some(c) => Some(&c),
                None => None,
            },
            now,
        ) || usable(
            match external {
                Some(c) => Some(&c),
                None => None,
            },
            now,
        ),
{
}

/// Once expired, always expired.
pub proof fn expiry_is_final(c: MuseCredentials, now: int, later: int)
    requires
        now <= later,
        expired_by(c, now),
    ensures
        expired_by(c, later),
{
}

/// Whether a text, without the white space around it, begins with the four characters
/// of an inference key.
pub open spec fn begins_as_inference_key(key: Seq<char>) -> bool {
    let t = text::trimmed(key);
    t.len() >= 4 && t[0] == 'L' && t[1] == 'L' && t[2] == 'M' && t[3] == '|'
}

/// Whether credentials have something to show: an inference key, or an access token
/// that is more than white space.
pub open spec fn have_something_to_show(c: MuseCredentials) -> bool {
    ||| c.api_key is Some && begins_as_inference_key(c.api_key->0@)
    ||| exists|i: int|
        0 <= i < c.access_token@.len() && !text::CharClass::White.has(
            #[trigger] c.access_token@[i],
        )
}

/// A text is blank exactly where all of it is white space.
proof fn lemma_blank(s: Seq<char>)
    ensures
        text::trimmed(s).len() > 0 <==> exists|i: int|
            0 <= i < s.len() && !text::CharClass::White.has(#[trigger] s[i]),
{
    let (before, after) = text::trimming_takes_white_space_only(s);
    let t = text::trimmed(s);
    if t.len() > 0 {
        assert(s[before.len() as int] == t[0]);
    } else {
        assert forall|i: int| 0 <= i < s.len() implies text::CharClass::White.has(
            #[trigger] s[i],
        ) by {
            if i < before.len() {
                assert(s[i] == before[i]);
            } else {
                assert(s[i] == after[i - before.len()]);
            }
        }
    }
}

proof fn lemma_inference_key(key: Seq<char>)
    ensures
        is_inference_key(text::trimmed(key)) <==> begins_as_inference_key(key),
{
    reveal_strlit("LLM|");
    let t = text::trimmed(key);
    let start = "LLM|"@;
    if begins_as_inference_key(key) {
        assert(start == t.subrange(0, 4));
    }
    if is_inference_key(t) {
        assert(start == t.subrange(0, 4));
        assert forall|i: int| 0 <= i < 4 implies start[i] == t[i] by {
            assert(t.subrange(0, 4)[i] == t[i]);
        }
        assert(start[0] == t[0] && start[1] == t[1] && start[2] == t[2] && start[3] == t[3]);
    }
}

/// Credentials hold a key exactly where they have something to show.
pub proof fn a_key_is_something_to_show(c: &MuseCredentials, r: bool)
    requires
        call_ensures(holds_key, (c,), r),
    ensures
        r <==> have_something_to_show(*c),
{
    lemma_blank(c.access_token@);
    if c.api_key is Some {
        lemma_inference_key(c.api_key->0@);
    }
}

/// Whether a time, in milliseconds, is less than a minute before a time of expiry, or
/// behind it. A time of expiry below ten thousand millions is one in seconds.
pub open spec fn is_too_late(now: int, expires_at: int) -> bool {
    if expires_at < 10_000_000_000 {
        1000 * expires_at - now <= 60_000
    } else {
        expires_at - now <= 60_000
    }
}

/// A token is expired from a minute before the time of its expiry on, and one without
/// such a time never is.
pub proof fn a_token_expires_a_minute_early(c: &MuseCredentials, now: i64, r: bool)
    requires
        call_ensures(expired_at, (c, now), r),
    ensures
        r <==> c.expires_at is Some && is_too_late(now as int, c.expires_at->0 as int),
{
}

/// Whether a token is expired now is decided by what the clock showed when it was asked.
pub proof fn expiry_is_judged_by_the_clock(c: &MuseCredentials, r: bool)
    requires
        call_ensures(is_expired, (c,), r),
    ensures
        c.expires_at is None ==> !r,
        c.expires_at is Some ==> exists|now: i64| #[trigger]
            clock_showed(now) && (r <==> is_too_late(now as int, c.expires_at->0 as int)),
{
    if c.expires_at is Some {
        let now = choose|now: i64| #[trigger]
            clock_showed(now) && r == expired_by(*c, now as int);
        assert(r <==> is_too_late(now as int, c.expires_at->0 as int));
    }
}

/// The credentials of the account in use are handed out where they have something to
/// show, unless it was too late for them on the clock. They are then refused, whatever
/// the client's file holds.
pub proof fn own_credentials_are_handed_out_until_they_expire(
    own: MuseCredentials,
    external: Option<MuseCredentials>,
    r: Result<MuseCredentials, CredentialError>,
)
    requires
        have_something_to_show(own),
        call_ensures(load_credentials, (Some(own), external), r),
    ensures
        own.expires_at is None ==> r is Ok && r->Ok_0 == own,
        own.expires_at is Some ==> exists|now: i64| #[trigger]
            clock_showed(now) && (if is_too_late(now as int, own.expires_at->0 as int) {
                r is Err && r->Err_0 == CredentialError::Expired
            } else {
                r is Ok && r->Ok_0 == own
            }),
{
    lemma_has_key(own);
    if own.expires_at is Some {
        let now = choose|now: i64| #[trigger]
            clock_showed(now) && r == chosen_credentials(Some(own), external, now as int);
        assert(expired_by(own, now as int) <==> is_too_late(
            now as int,
            own.expires_at->0 as int,
        ));
    }
}

proof fn lemma_has_key(c: MuseCredentials)
    ensures
        has_key(c) <==> have_something_to_show(c),
{
    lemma_blank(c.access_token@);
    if c.api_key is Some {
        lemma_inference_key(c.api_key->0@);
    }
}

/// Where the account in use has nothing to show, the client's credentials are handed
/// out, unless it was too late for them on the clock; without any, none are.
pub proof fn the_clients_credentials_stand_in(
    own: Option<MuseCredentials>,
    external: Option<MuseCredentials>,
    r: Result<MuseCredentials, CredentialError>,
)
    requires
        own is Some ==> !have_something_to_show(own->0),
        call_ensures(load_credentials, (own, external), r),
    ensures
        external is None ==> r is Err && r->Err_0 == CredentialError::Missing,
        external is Some && external->0.expires_at is None ==> r is Ok && r->Ok_0 == external->0,
        external is Some && external->0.expires_at is Some ==> exists|now: i64| #[trigger]
            clock_showed(now) && (if is_too_late(now as int, external->0.expires_at->0 as int) {
                r is Err && r->Err_0 == CredentialError::ExternalExpired
            } else {
                r is Ok && r->Ok_0 == external->0
            }),
{
    if own is Some {
        lemma_has_key(own->0);
    }
    if external is Some && external->0.expires_at is Some {
        let now = choose|now: i64| #[trigger]
            clock_showed(now) && r == chosen_credentials(own, external, now as int);
        assert(expired_by(external->0, now as int) <==> is_too_late(
            now as int,
            external->0.expires_at->0 as int,
        ));
    }
}

/// The choice at a given time: that of the account in use, if it has something to show
/// and it is not too late, then that of the client.
pub proof fn the_choice_is_that_of_the_account_first(
    own: Option<MuseCredentials>,
    external: Option<MuseCredentials>,
    now: i64,
    r: Result<MuseCredentials, CredentialError>,
)
    requires
        call_ensures(choose_credentials, (own, external, now), r),
    ensures
        ({
            let own_counts = own is Some && have_something_to_show(own->0);
            let too_late = |c: MuseCredentials|
                c.expires_at is Some && is_too_late(now as int, c.expires_at->0 as int);
            &&& own_counts && !too_late(own->0) ==> r is Ok && r->Ok_0 == own->0
            &&& own_counts && too_late(own->0) ==> r is Err && r->Err_0 == CredentialError::Expired
            &&& !own_counts && external is Some && !too_late(external->0) ==> r is Ok && r->Ok_0
                == external->0
            &&& !own_counts && external is Some && too_late(external->0) ==> r is Err && r->Err_0
                == CredentialError::ExternalExpired
            &&& !own_counts && external is None ==> r is Err && r->Err_0 == CredentialError::Missing
        }),
{
    if own is Some {
        lemma_has_key(own->0);
    }
}

/// Credentials are there where those of the account in use, or those of the client,
/// have something to show and it was not too late for them on the clock.
pub proof fn credentials_are_there_until_they_expire(
    own: Option<&MuseCredentials>,
    external: Option<&MuseCredentials>,
    r: bool,
)
    requires
        call_ensures(has_muse_credentials, (own, external), r) || call_ensures(
            has_muse_credentials_fast,
            (own, external),
            r,
        ),
    ensures
        r ==> is_there(own, true) || is_there(external, true),
        !r ==> is_there(own, false) && is_there(external, false),
{
    assert forall|c: Option<&MuseCredentials>, now: i64| #[trigger]
        is_time_for(c, now) implies is_there(c, usable(c, now as int)) by {
        lemma_is_there(c, now);
    }
}

/// Whether credentials were found to be there, or not to be: where they have something
/// to show and a time of expiry, the clock decided.
pub open spec fn is_there(c: Option<&MuseCredentials>, there: bool) -> bool {
    if c is None || !have_something_to_show(*c->0) {
        !there
    } else if c->0.expires_at is None {
        there
    } else {
        exists|now: i64| #[trigger]
            clock_showed(now) && (there <==> !is_too_late(now as int, c->0.expires_at->0 as int))
    }
}

proof fn lemma_is_there(c: Option<&MuseCredentials>, now: i64)
    requires
        is_time_for(c, now),
    ensures
        is_there(c, usable(c, now as int)),
{
    if c is Some {
        lemma_has_key(*c->0);
        if has_key(*c->0) && c->0.expires_at is Some {
            assert(clock_showed(now) && (usable(c, now as int) <==> !is_too_late(
                now as int,
                c->0.expires_at->0 as int,
            )));
        }
    }
}

/// Whether an account is the first with a label.
pub open spec fn is_first_with_label(
    accounts: Seq<MuseAccount>,
    i: int,
    label: Seq<char>,
) -> bool {
    &&& 0 <= i < accounts.len()
    &&& accounts[i].label@ == label
    &&& forall|k: int| 0 <= k < i ==> (#[trigger] accounts[k]).label@ != label
}

/// The account that a label names is the first that has it, and none where none has it.
pub proof fn a_label_names_the_first_that_has_it(
    accounts: Seq<MuseAccount>,
    label: Seq<char>,
    i: int,
)
    ensures
        is_first_with_label(accounts, i, label) ==> account_with_label(accounts, label) == Some(
            accounts[i],
        ),
        account_with_label(accounts, label) is None <==> forall|k: int|
            0 <= k < accounts.len() ==> (#[trigger] accounts[k]).label@ != label,
{
    lemma_index_of_label(accounts, label);
    let at = index_of_label(accounts, label);
    if is_first_with_label(accounts, i, label) {
        if at < i {
            assert(accounts[at].label@ != label);
        } else if i < at {
            assert(accounts[i].label@ != label);
        }
    }
    if account_with_label(accounts, label) is Some {
        assert(accounts[at].label@ == label);
    }
}

/// The credentials in use are those of the first account with the active label, or,
/// where no label is active, with the primary one. They are the first account's where no
/// account has the label, and none where there is no account.
pub proof fn the_account_in_use_has_the_active_label(
    auth: &JcodeMuseAuthFile,
    active_label: Option<&str>,
    primary_label: &str,
    i: int,
    r: Option<MuseCredentials>,
)
    requires
        call_ensures(jcode_credentials, (Some(auth), active_label, primary_label), r),
    ensures
        ({
            let accounts = auth.muse_accounts@;
            let label = if active_label is Some {
                active_label->0@
            } else {
                primary_label@
            };
            &&& accounts.len() == 0 ==> r is None
            &&& is_first_with_label(accounts, i, label) ==> r is Some && r->0.access_token
                == accounts[i].access_token && r->0.api_key == accounts[i].api_key
                && r->0.expires_at == accounts[i].expires_at
            &&& accounts.len() > 0 && (forall|k: int|
                0 <= k < accounts.len() ==> (#[trigger] accounts[k]).label@ != label) ==> r is Some
                && r->0.access_token == accounts[0].access_token && r->0.api_key
                == accounts[0].api_key && r->0.expires_at == accounts[0].expires_at
        }),
{
    let label = if active_label is Some {
        active_label->0@
    } else {
        primary_label@
    };
    a_label_names_the_first_that_has_it(auth.muse_accounts@, label, i);
}

/// The credentials that are loaded for a label are those of the first account that has
/// it; where none has it, an error names the label.
pub proof fn credentials_for_a_label_are_those_of_its_account(
    auth: &JcodeMuseAuthFile,
    label: &str,
    i: int,
    r: Result<MuseCredentials, String>,
)
    requires
        call_ensures(load_credentials_for_account, (auth, label), r),
    ensures
        ({
            let accounts = auth.muse_accounts@;
            &&& is_first_with_label(accounts, i, label@) ==> r is Ok && r->Ok_0.access_token
                == accounts[i].access_token && r->Ok_0.api_key == accounts[i].api_key
                && r->Ok_0.expires_at == accounts[i].expires_at
            &&& (forall|k: int|
                0 <= k < accounts.len() ==> (#[trigger] accounts[k]).label@ != label@) ==> r is Err
                && r->Err_0@ == "No Muse account with label '"@ + label@ + "' found"@
        }),
{
    a_label_names_the_first_that_has_it(auth.muse_accounts@, label@, i);
}

/// A removal goes account by account: it drops those with the label, and leaves the
/// others as they are and in their order.
pub proof fn removal_keeps_the_order(
    first: Seq<MuseAccount>,
    second: Seq<MuseAccount>,
    account: MuseAccount,
    label: Seq<char>,
)
    ensures
        without_label(first + second, label) == without_label(first, label) + without_label(
            second,
            label,
        ),
        without_label(seq![account], label) == if account.label@ == label {
            Seq::empty()
        } else {
            seq![account]
        },
{
    Seq::filter_distributes_over_add(first, second, labeled_otherwise(label));
    reveal_with_fuel(Seq::filter, 2);
    let one = seq![account];
    assert(one.drop_last() == Seq::<MuseAccount>::empty());
    assert(one.last() == account);
}

/// A removal passes the active role on only where the removed account had it: then to
/// the first account that is left, or to none. What overrides it follows the active one
/// in the same way.
pub proof fn removal_passes_the_role_on(
    remaining: Seq<MuseAccount>,
    active: Option<Seq<char>>,
    overriding: Option<Seq<char>>,
    label: Seq<char>,
)
    ensures
        active is None || active->0 != label ==> active_after_removal(remaining, active, label)
            == active,
        active == Some(label) && remaining.len() > 0 ==> active_after_removal(
            remaining,
            active,
            label,
        ) == Some(remaining[0].label@),
        active == Some(label) && remaining.len() == 0 ==> active_after_removal(
            remaining,
            active,
            label,
        ) is None,
        overriding is None || overriding->0 != label ==> override_after_removal(
            overriding,
            active,
            label,
        ) == overriding,
        override_after_removal(Some(label), active, label) == active,
{
}

/// An entry gives credentials where OAuth made it and it has an inference key or a token
/// that is more than white space. The token and the key come without the white space
/// around them; the key stands in where there is no token.
pub proof fn an_entry_gives_what_it_has(entry: &MetaEntry, r: Option<MuseCredentials>)
    requires
        call_ensures(entry_credentials, (entry,), r),
    ensures
        ({
            let token = if entry.access_token is Some {
                text::trimmed(entry.access_token->0@)
            } else {
                Seq::empty()
            };
            let keyed = entry.api_key is Some && begins_as_inference_key(entry.api_key->0@);
            &&& r is Some <==> entry.mechanism is Some && entry.mechanism->0@ == "oauth"@ && (keyed
                || token.len() > 0)
            &&& r is Some && token.len() > 0 ==> r->0.access_token@ == token
            &&& r is Some && token.len() == 0 ==> r->0.access_token@ == text::trimmed(
                entry.api_key->0@,
            )
            &&& r is Some && keyed ==> r->0.api_key is Some && r->0.api_key->0@ == text::trimmed(
                entry.api_key->0@,
            )
            &&& r is Some && !keyed ==> r->0.api_key is None
            &&& r is Some && entry.expires_number is Some ==> r->0.expires_at
                == entry.expires_number
            &&& r is Some && entry.expires_number is None && entry.expires_text is None
                ==> r->0.expires_at is None
        }),
{
    if entry.api_key is Some {
        lemma_inference_key(entry.api_key->0@);
    }
}

/// A time of expiry that is written out in digits counts as the number.
pub proof fn an_expiry_in_digits_is_its_number(
    entry: &MetaEntry,
    n: i64,
    r: Option<MuseCredentials>,
)
    requires
        call_ensures(entry_credentials, (entry,), r),
        r is Some,
        entry.expires_number is None,
        entry.expires_text is Some,
        entry.expires_text->0@ == text::decimal_int(n as int),
    ensures
        r->0.expires_at == Some(n),
{
    text::a_number_is_read_from_its_notation(n as int, i64::MIN as int, i64::MAX as int);
}

/// An entry has credentials exactly where it gives some.
pub proof fn an_entry_has_what_it_gives(
    entry: &MetaEntry,
    held: bool,
    given: Option<MuseCredentials>,
)
    requires
        call_ensures(entry_has_credentials, (entry,), held),
        call_ensures(entry_credentials, (entry,), given),
    ensures
        held <==> given is Some,
{
}

/// The entry is the member `meta` of the member `providers` of the document, and has its
/// fields from the members that are named like them.
pub proof fn the_entry_is_that_of_the_provider(document: &Value, r: Option<MetaEntry>)
    requires
        call_ensures(meta_entry, (document,), r),
    ensures
        ({
            let providers = json::member(*document, "providers"@);
            let meta = json::member(providers->0, "meta"@);
            &&& r is Some <==> providers is Some && meta is Some
            &&& r is Some ==> {
                &&& text::opt_view(r->0.mechanism) == json::member_text(meta->0, "mechanism"@)
                &&& text::opt_view(r->0.access_token) == json::member_text(meta->0, "access_token"@)
                &&& text::opt_view(r->0.api_key) == json::member_text(meta->0, "api_key"@)
                &&& opt_int(r->0.expires_number) == json::member_integer(meta->0, "expires_at"@)
                &&& text::opt_view(r->0.expires_text) == json::member_text(meta->0, "expires_at"@)
            }
        }),
{
    if r is Some {
        let entry = r->0;
        assert(entry@.mechanism == text::opt_view(entry.mechanism));
    }
}

/// The client's file gives credentials only with consent, and then those of the entry in
/// its text.
pub proof fn the_clients_file_is_read_with_consent(
    allowed: bool,
    data: Option<&str>,
    r: Option<MuseCredentials>,
    entry: MetaEntry,
    given: Option<MuseCredentials>,
)
    requires
        call_ensures(load_external_muse_credentials, (allowed, data), r),
        data is Some && json::json_document(data->0@) is Some ==> call_ensures(
            meta_entry,
            (&json::json_document(data->0@)->0,),
            Some(entry),
        ) && call_ensures(entry_credentials, (&entry,), given),
    ensures
        !allowed || data is None || json::json_document(data->0@) is None ==> r is None,
        allowed && data is Some && json::json_document(data->0@) is Some ==> (r is Some
            <==> given is Some) && (r is Some ==> r->0.access_token@ == given->0.access_token@
            && text::opt_view(r->0.api_key) == text::opt_view(given->0.api_key)
            && r->0.expires_at == given->0.expires_at),
{
    if data is Some && json::json_document(data->0@) is Some {
        let document = json::json_document(data->0@)->0;
        assert(entry@ == fields_of(meta_of(document)->0));
    }
}

/// A document without the entry gives no credentials.
pub proof fn a_file_without_the_entry_gives_nothing(
    allowed: bool,
    data: &str,
    r: Option<MuseCredentials>,
)
    requires
        call_ensures(load_external_muse_credentials, (allowed, Some(data)), r),
        json::json_document(data@) is Some,
        call_ensures(meta_entry, (&json::json_document(data@)->0,), None),
    ensures
        r is None,
{
}

/// The client's file is that below the configuration directory, where the setting holds
/// more than white space, and else that below the user's home, if there is one.
pub proof fn the_configuration_directory_comes_first<P>(
    xdg_config_home: Option<&str>,
    home_file: Option<P>,
    r: Option<Place<P>>,
)
    requires
        call_ensures(primary_external_path::<P>, (xdg_config_home, home_file), r),
    ensures
        ({
            let dir = text::trimmed(xdg_config_home->0@);
            let named = xdg_config_home is Some && dir.len() > 0;
            &&& named ==> r is Some && r->0 is Named && r->0->Named_0@ == paths::joined_path(
                dir,
                "muse/auth.json"@,
            )
            &&& !named && home_file is Some ==> r is Some && r->0 == Place::Given(home_file->0)
            &&& !named && home_file is None ==> r is None
        }),
{
}

/// An explicit path that is more than white space wins. Else it is the primary file,
/// unless that cannot be read and the copy can.
pub proof fn an_explicit_path_wins<P>(
    muse_auth_path: Option<&str>,
    primary: Option<P>,
    primary_readable: bool,
    fallback: Option<P>,
    fallback_readable: bool,
    r: Option<Place<P>>,
)
    requires
        call_ensures(
            external_muse_auth_path::<P>,
            (muse_auth_path, primary, primary_readable, fallback, fallback_readable),
            r,
        ),
    ensures
        ({
            let path = text::trimmed(muse_auth_path->0@);
            let named = muse_auth_path is Some && path.len() > 0;
            let copied = !primary_readable && fallback is Some && fallback_readable;
            &&& named ==> r is Some && r->0 is Named && r->0->Named_0@ == path
            &&& !named && primary is None ==> r is None
            &&& !named && primary is Some && copied ==> r is Some && r->0 == Place::Given(
                fallback->0,
            )
            &&& !named && primary is Some && !copied ==> r is Some && r->0 == Place::Given(
                primary->0,
            )
        }),
{
}

/// The copy stands in the program's directory, if that is known.
pub proof fn the_copy_stands_in_the_directory(jcode_dir: Option<&str>, r: Option<String>)
    requires
        call_ensures(fallback_external_path, (jcode_dir,), r),
    ensures
        r is Some <==> jcode_dir is Some,
        r is Some ==> r->0@ == paths::joined_path(jcode_dir->0@, "muse-external.json"@),
{
}

/// Accounts are saved as they are: all of them, in order, and which one is active.
pub proof fn accounts_are_saved_as_they_are(auth: &JcodeMuseAuthFile, r: JcodeMuseAuthFile)
    requires
        call_ensures(save_auth_file, (auth,), r),
    ensures
        r.muse_accounts@ == auth.muse_accounts@,
        r.active_muse_account == auth.active_muse_account,
{
}

/// What is loaded of a stored file is what the account store makes of it; it is saved
/// where the store changed a label, and the override becomes the label that the store
/// gives for it, if it gives one.
pub proof fn what_is_loaded_is_what_the_store_makes<
    F: Fn(&str, &JcodeMuseAuthFile, &Option<String>) -> Relabeled,
>(
    loaded: LoadedAuth,
    after: Option<String>,
    stored: JcodeMuseAuthFile,
    before: Option<String>,
    relabel: F,
)
    requires
        is_loaded(loaded, after, Some(stored), before, relabel),
    ensures
        exists|out: Relabeled| #[trigger]
            call_ensures(relabel, ("muse", &stored, &before), out) && loaded.auth == out.auth
                && loaded.must_save == out.changed && after == (
            if out.canonical_override_label is Some {
                out.canonical_override_label
            } else {
                before
            }),
{
    let (auth, out) = choose|auth: JcodeMuseAuthFile, out: Relabeled| #[trigger]
        call_ensures(relabel, (ACCOUNT_LABEL_PREFIX, &auth, &before), out) && auth == stored
            && loaded.auth == out.auth && loaded.must_save == out.changed && after
            == override_after(out, before);
    assert(call_ensures(relabel, ("muse", &stored, &before), out));
}

/// The override after accounts were relabeled is the label that the store gives for it,
/// or the one that it was.
pub proof fn the_override_follows_the_labels(out: Relabeled, before: Option<String>)
    ensures
        out.canonical_override_label is Some ==> override_after(out, before)
            == out.canonical_override_label,
        out.canonical_override_label is None ==> override_after(out, before) == before,
{
}

/// The reasons why there are no credentials are told in their words.
pub proof fn missing_credentials_are_told_in_words(e: CredentialError, r: String)
    requires
        call_ensures(CredentialError::message, (e,), r),
    ensures
        e == CredentialError::Expired ==> r@
            == "Muse OAuth token is expired. Run `jcode login --provider muse` to refresh."@,
        e == CredentialError::ExternalExpired ==> r@
            == "Muse CLI OAuth token is expired. Run `muse login` then `jcode login --provider muse` or re-approve the external source."@,
        e == CredentialError::Missing ==> r@
            == "No Muse OAuth credentials found. Run `jcode login --provider muse` or `muse login` then approve the import."@,
{
}

/// Where no account has a label, the error names it.
pub proof fn an_unknown_label_is_named(label: Seq<char>)
    ensures
        no_such_account(label) == "No Muse account with label '"@ + label + "' found"@,
{
}

/// The client's file is reported where it exists, holds credentials, and nobody consented
/// to its being read.
pub proof fn only_an_unconsented_file_is_reported<P>(
    path: Option<P>,
    found: bool,
    allowed: bool,
    held: bool,
    r: Option<P>,
)
    requires
        call_ensures(has_unconsented_external_auth::<P>, (path, found, allowed, held), r),
    ensures
        r is Some ==> found && !allowed && held && r == path,
        found && !allowed && held ==> r == path,
{
}

/// A file has credentials exactly where, with consent, it gives some.
pub proof fn a_file_has_what_it_gives(
    data: Option<&str>,
    held: bool,
    given: Option<MuseCredentials>,
    blob: Option<MuseCredentials>,
)
    requires
        call_ensures(external_source_has_muse_auth, (data,), held),
        call_ensures(load_external_muse_credentials, (true, data), given),
        data is Some ==> call_ensures(parse_external_muse_blob, (data->0,), blob),
    ensures
        held <==> given is Some,
        data is None ==> !held,
        data is Some ==> (held <==> blob is Some),
{
}

/// Consent is recorded for the source of the client's file, and for the path that is
/// given; without a path there is none.
pub proof fn consent_is_recorded_for_the_path<P>(path: Option<P>, r: Option<ConsentGrant<P>>)
    requires
        call_ensures(trust_external_auth_for_future_use::<P>, (path,), r),
    ensures
        r is Some <==> path is Some,
        r is Some ==> r->0.source_id@ == "muse_cli_auth_json"@ && r->0.path == path->0,
{
}

} // verus!
