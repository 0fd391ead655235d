//! The credential materializer: converts the shared account store's records
//! into the per-launch credential list the sidecar consumes.  Records without
//! a usable secret are silently skipped; every surviving record keeps its
//! original ordinal position as its priority.

use vstd::prelude::*;
use crate::errors::SidecarError;
use crate::strutil::contains_seq;
use crate::strutil::lower_of;
use crate::strutil::lower_str;
use crate::strutil::norm_opt;
use crate::strutil::norm_opt_spec;
use crate::strutil::norm_str;
use crate::strutil::str_contains;
use crate::strutil::trim_of;
use crate::strutil::view_opt;
use crate::timefmt::expires_norm_relates;
use crate::timefmt::normalize_expires_at;

verus! {

/// One record of the shared account store, as the account manager writes it:
/// a secret with its classification labels and optional metadata.  The
/// subscription fields hold what the store's usage blob reports under its
/// title, name and type keys, in that order of preference.
#[derive(Clone, Debug)]
pub struct Account {
    pub email: String,
    pub status: String,
    pub provider: Option<String>,
    pub refresh_token: Option<String>,
    pub access_token: Option<String>,
    pub profile_arn: Option<String>,
    pub expires_at: Option<String>,
    pub client_id: Option<String>,
    pub client_secret: Option<String>,
    pub region: Option<String>,
    pub subscription_title: Option<String>,
    pub subscription_name: Option<String>,
    pub subscription_type: Option<String>,
}

/// One entry of the materialized credential list.
#[derive(Clone, Debug)]
pub struct KiroRsCredential {
    pub id: u64,
    pub refresh_token: String,
    pub auth_method: String,
    pub priority: u32,
    pub disabled: bool,
    pub access_token: Option<String>,
    pub profile_arn: Option<String>,
    pub expires_at: Option<String>,
    pub client_id: Option<String>,
    pub client_secret: Option<String>,
    pub region: Option<String>,
    pub email: Option<String>,
    pub subscription_title: Option<String>,
}

/// A record is usable exactly when its secret is present and not all
/// whitespace.
pub open spec fn usable(a: Account) -> bool {
    a.refresh_token matches Some(t) && trim_of(t@).len() > 0
}

/// The provider label, defaulted for accounts that carry none.
pub open spec fn provider_label(a: Account) -> Seq<char> {
    match a.provider {
        Some(p) => p@,
        None => "social"@,
    }
}

/// An account uses the enterprise method when its provider label carries an
/// enterprise or builder marker, or when both app-client fields are present.
pub open spec fn is_idc(a: Account) -> bool {
    ||| contains_seq(lower_of(provider_label(a)), "builder"@)
    ||| contains_seq(lower_of(provider_label(a)), "enterprise"@)
    ||| (a.client_id is Some && a.client_secret is Some)
}

/// An account is disabled when its status label carries a ban or suspension
/// marker, case-insensitively.
pub open spec fn is_disabled(a: Account) -> bool {
    ||| contains_seq(lower_of(a.status@), "封禁"@)
    ||| contains_seq(lower_of(a.status@), "banned"@)
    ||| contains_seq(lower_of(a.status@), "suspend"@)
}

/// The subscription label: the first of title, name and type that the store
/// reported.
pub open spec fn subscription_pick(a: Account) -> Option<String> {
    if a.subscription_title is Some {
        a.subscription_title
    } else if a.subscription_name is Some {
        a.subscription_name
    } else {
        a.subscription_type
    }
}

/// How a credential relates to the record at ordinal `idx` it was converted
/// from.
pub open spec fn cred_matches(
    a: Account,
    idx: int,
    default_region: Seq<char>,
    c: KiroRsCredential,
) -> bool {
    &&& c.id == idx + 1
    &&& c.priority == idx
    &&& (a.refresh_token matches Some(t) && c.refresh_token@ == trim_of(t@))
    &&& c.auth_method@ == (if is_idc(a) {
        "idc"@
    } else {
        "social"@
    })
    &&& c.disabled == is_disabled(a)
    &&& view_opt(c.access_token) == norm_opt_spec(a.access_token)
    &&& view_opt(c.profile_arn) == norm_opt_spec(a.profile_arn)
    &&& view_opt(c.client_id) == norm_opt_spec(a.client_id)
    &&& view_opt(c.client_secret) == norm_opt_spec(a.client_secret)
    &&& expires_norm_relates(view_opt(a.expires_at), view_opt(c.expires_at))
    &&& view_opt(c.region) == (match norm_opt_spec(a.region) {
        Some(t) => Some(t),
        None => Some(default_region),
    })
    &&& view_opt(c.email) == (if trim_of(a.email@).len() > 0 {
        Some(trim_of(a.email@))
    } else {
        None
    })
    &&& view_opt(c.subscription_title) == norm_opt_spec(subscription_pick(a))
}

/// Converts one account record into a credential, or skips it when it has no
/// usable secret.  `priority` is the record's ordinal position in the store.
pub fn account_to_credential(account: &Account, priority: usize, default_region: &str) -> (r:
    Option<KiroRsCredential>)
    requires
        priority as int <= u32::MAX as int,
    ensures
        r is Some <==> usable(*account),
        r matches Some(c) ==> cred_matches(*account, priority as int, default_region@, c),
{
    let refresh_token = match norm_opt(&account.refresh_token) {
        Some(t) => t,
        None => {
            return None;
        },
    };

    let provider_lc = match &account.provider {
        Some(p) => lower_str(p.as_str()),
        None => lower_str("social"),
    };
    let has_idc_fields = account.client_id.is_some() && account.client_secret.is_some();
    let auth_method: String = if str_contains(provider_lc.as_str(), "builder") || str_contains(
        provider_lc.as_str(),
        "enterprise",
    ) || has_idc_fields {
        "idc".to_owned()
    } else {
        "social".to_owned()
    };

    let status_lc = lower_str(account.status.as_str());
    let disabled = str_contains(status_lc.as_str(), "封禁") || str_contains(
        status_lc.as_str(),
        "banned",
    ) || str_contains(status_lc.as_str(), "suspend");

    let subscription_title = if account.subscription_title.is_some() {
        norm_opt(&account.subscription_title)
    } else if account.subscription_name.is_some() {
        norm_opt(&account.subscription_name)
    } else {
        norm_opt(&account.subscription_type)
    };

    let region = match norm_opt(&account.region) {
        Some(t) => Some(t),
        None => Some(default_region.to_owned()),
    };

    let email = norm_str(account.email.as_str());

    let expires_at = normalize_expires_at(
        match &account.expires_at {
            Some(s) => Some(s.as_str()),
            None => None,
        },
    );

    Some(
        KiroRsCredential {
            id: (priority as u64) + 1,
            refresh_token,
            auth_method,
            priority: priority as u32,
            disabled,
            access_token: norm_opt(&account.access_token),
            profile_arn: norm_opt(&account.profile_arn),
            expires_at,
            client_id: norm_opt(&account.client_id),
            client_secret: norm_opt(&account.client_secret),
            region,
            email,
            subscription_title,
        },
    )
}

/// The ordinals of the usable records, in store order.
pub open spec fn usable_indices(s: Seq<Account>) -> Seq<int>
    decreases s.len(),
{
    if s.len() == 0 {
        Seq::empty()
    } else {
        let pre = usable_indices(s.drop_last());
        if usable(s.last()) {
            pre.push(s.len() - 1)
        } else {
            pre
        }
    }
}

/// How many records carry a usable secret.
pub open spec fn count_usable(s: Seq<Account>) -> nat
    decreases s.len(),
{
    if s.len() == 0 {
        0nat
    } else {
        count_usable(s.drop_last()) + (if usable(s.last()) {
            1nat
        } else {
            0nat
        })
    }
}

/// There is one usable ordinal per usable record; the ordinals are in range,
/// strictly increasing, name only usable records, and name all of them.
pub proof fn lemma_usable_indices_sound(s: Seq<Account>)
    ensures
        usable_indices(s).len() == count_usable(s),
        forall|k: int|
            0 <= k < usable_indices(s).len() ==> 0 <= #[trigger] usable_indices(s)[k] < s.len()
                && usable(s[usable_indices(s)[k]]),
        forall|k1: int, k2: int|
            0 <= k1 < k2 < usable_indices(s).len() ==> usable_indices(s)[k1] < usable_indices(
                s,
            )[k2],
        forall|i: int| 0 <= i < s.len() && usable(#[trigger] s[i]) ==> usable_indices(s).contains(i),
    decreases s.len(),
{
    if s.len() > 0 {
        lemma_usable_indices_sound(s.drop_last());
        assert forall|i: int| 0 <= i < s.len() && usable(#[trigger] s[i]) implies usable_indices(
            s,
        ).contains(i) by {
            if i < s.len() - 1 {
                assert(s.drop_last()[i] == s[i]);
                assert(usable_indices(s.drop_last()).contains(i));
                let k = choose|k: int|
                    0 <= k < usable_indices(s.drop_last()).len() && usable_indices(s.drop_last())[k]
                        == i;
                assert(usable_indices(s)[k] == i);
            } else {
                assert(s.last() == s[i]);
                assert(usable_indices(s).last() == i);
            }
        }
    }
}

/// When every record is usable, the priorities are dense: exactly the
/// ordinals `0 .. n-1`, in order.
pub proof fn lemma_all_usable_indices_dense(s: Seq<Account>)
    requires
        forall|i: int| 0 <= i < s.len() ==> usable(#[trigger] s[i]),
    ensures
        usable_indices(s).len() == s.len(),
        forall|k: int| 0 <= k < s.len() ==> #[trigger] usable_indices(s)[k] == k,
    decreases s.len(),
{
    if s.len() > 0 {
        assert(forall|i: int|
            0 <= i < s.drop_last().len() ==> usable(#[trigger] s.drop_last()[i]));
        lemma_all_usable_indices_dense(s.drop_last());
        assert(usable(s.last()));
    }
}

/// Materializes the credential list from the parsed account store.  Exactly
/// the usable records survive, in order, each converted as `cred_matches`
/// says; an empty yield is the `NoUsableCredentials` failure.
pub fn build_runtime_credentials(accounts: &Vec<Account>, default_region: &str) -> (r: Result<
    Vec<KiroRsCredential>,
    SidecarError,
>)
    requires
        accounts@.len() <= u32::MAX as int,
    ensures
        r is Ok <==> count_usable(accounts@) > 0,
        r matches Ok(creds) ==> {
            &&& creds@.len() == usable_indices(accounts@).len()
            &&& forall|k: int|
                0 <= k < creds@.len() ==> cred_matches(
                    accounts@[usable_indices(accounts@)[k]],
                    usable_indices(accounts@)[k],
                    default_region@,
                    #[trigger] creds@[k],
                )
        },
        r matches Err(e) ==> e is NoUsableCredentials,
{
    let mut creds: Vec<KiroRsCredential> = Vec::new();
    let mut i: usize = 0;
    while i < accounts.len()
        invariant
            accounts@.len() <= u32::MAX as int,
            i <= accounts@.len(),
            creds@.len() == usable_indices(accounts@.subrange(0, i as int)).len(),
            forall|k: int|
                0 <= k < creds@.len() ==> cred_matches(
                    accounts@[usable_indices(accounts@.subrange(0, i as int))[k]],
                    usable_indices(accounts@.subrange(0, i as int))[k],
                    default_region@,
                    #[trigger] creds@[k],
                ),
        decreases accounts@.len() - i,
    {
        proof {
            lemma_usable_indices_sound(accounts@.subrange(0, i as int));
            assert(accounts@.subrange(0, i as int + 1).drop_last() =~= accounts@.subrange(
                0,
                i as int,
            ));
            assert(accounts@.subrange(0, i as int + 1).last() == accounts@[i as int]);
        }
        if let Some(cred) = account_to_credential(&accounts[i], i, default_region) {
            creds.push(cred);
        }
        i = i + 1;
    }
    proof {
        assert(accounts@.subrange(0, accounts@.len() as int) =~= accounts@);
        lemma_usable_indices_sound(accounts@);
    }
    if creds.len() == 0 {
        Err(SidecarError::NoUsableCredentials)
    } else {
        Ok(creds)
    }
}

/// The materialized list is faithful to the store: its length is the number
/// of usable records, its priorities are those records' ordinals in strictly
/// increasing order — so the one-based ids are unique — and when every
/// record is usable the priorities are exactly `0 .. n-1`.
pub proof fn lemma_credential_priorities(
    s: Seq<Account>,
    creds: Seq<KiroRsCredential>,
    default_region: Seq<char>,
)
    requires
        creds.len() == usable_indices(s).len(),
        forall|k: int|
            0 <= k < creds.len() ==> cred_matches(
                s[usable_indices(s)[k]],
                usable_indices(s)[k],
                default_region,
                #[trigger] creds[k],
            ),
    ensures
        creds.len() == count_usable(s),
        forall|k: int|
            0 <= k < creds.len() ==> usable(s[#[trigger] creds[k].priority as int]),
        forall|k1: int, k2: int|
            0 <= k1 < k2 < creds.len() ==> creds[k1].priority < creds[k2].priority,
        forall|k1: int, k2: int| 0 <= k1 < k2 < creds.len() ==> creds[k1].id < creds[k2].id,
        (forall|i: int| 0 <= i < s.len() ==> usable(#[trigger] s[i])) ==> creds.len() == s.len()
            && (forall|k: int| 0 <= k < creds.len() ==> #[trigger] creds[k].priority == k),
{
    lemma_usable_indices_sound(s);
    if forall|i: int| 0 <= i < s.len() ==> usable(#[trigger] s[i]) {
        lemma_all_usable_indices_dense(s);
    }
}

} // verus!
