//! Typed read-only view of the config fields that channel accounts share.

use vstd::prelude::*;
use crate::target::{opt_str, opt_text, slice_of};
use crate::text;

verus! {

/// Tool audience ceiling for a turn that is not an operator in a proven direct chat.
/// Defaults to the fail-closed [`Self::Public`].
#[derive(Debug, Clone, Copy, PartialEq, Eq, Structural)]
pub enum UntrustedAudience {
    /// Only tools registered for the public audience are visible.
    Public,
    /// No audience ceiling: trusted tools become visible, and the name policy layers are
    /// the only limit on the turn.
    Trusted,
}

impl Default for UntrustedAudience {
    fn default() -> (r: Self)
        ensures
            r == UntrustedAudience::Public,
    {
        UntrustedAudience::Public
    }
}

/// Name policy applied to a turn that is not an operator in a proven direct chat.
/// Defaults to the fail-closed [`Self::DenyAll`].
#[derive(Debug, Clone, Copy, PartialEq, Eq, Structural)]
pub enum UntrustedTools {
    /// Deny every tool by name, on top of the audience ceiling.
    DenyAll,
    /// Add no name policy and let the configured policy layers decide, the same way they
    /// decide for an operator direct chat.
    Policy,
}

impl Default for UntrustedTools {
    fn default() -> (r: Self)
        ensures
            r == UntrustedTools::DenyAll,
    {
        UntrustedTools::DenyAll
    }
}

/// The ceiling for untrusted turns: the one that the account sets, or the fail-closed
/// defaults where the account is not known.
pub open spec fn ceiling_of(account: Option<(UntrustedAudience, UntrustedTools)>) -> (
    UntrustedAudience,
    UntrustedTools,
) {
    match account {
        Some(ceiling) => ceiling,
        None => (UntrustedAudience::Public, UntrustedTools::DenyAll),
    }
}

/// The account's untrusted-turn ceiling. A missing registry or an unknown account, for
/// which there is none, falls back to the defaults, which are the unconfigured behaviour.
pub fn resolve_untrusted_ceiling(account: Option<(UntrustedAudience, UntrustedTools)>) -> (r: (
    UntrustedAudience,
    UntrustedTools,
))
    ensures
        r == ceiling_of(account),
{
    match account {
        Some(ceiling) => ceiling,
        None => (UntrustedAudience::default(), UntrustedTools::default()),
    }
}

/// Some entry of the list is exactly that text.
pub open spec fn lists(list: Seq<String>, wanted: Seq<char>) -> bool {
    exists|i: int| 0 <= i < list.len() && (#[trigger] list[i])@ == wanted
}

/// Whether an allowlist lets a sender through: an empty list matches everyone, any other
/// list the senders whose text it holds.
///
/// That "compares text" means the same characters, with no trimming and no case folding, is
/// this library's reading.
pub open spec fn on_allowlist(sender_id: Seq<char>, allowlist: Seq<String>) -> bool {
    allowlist.len() == 0 || lists(allowlist, sender_id)
}

/// Whether some entry of the list is that text.
pub fn lists_text(list: &[String], wanted: &str) -> (r: bool)
    ensures
        r == lists(list@, wanted@),
{
    let mut i: usize = 0;
    while i < list.len()
        invariant
            i <= list@.len(),
            forall|j: int| 0 <= j < i ==> (#[trigger] list@[j])@ != wanted@,
        decreases list@.len() - i,
    {
        if text::same_text(list[i].as_str(), wanted) {
            return true;
        }
        i = i + 1;
    }
    false
}

/// Whether an allowlist lets a sender through.
pub fn sender_matches_allowlist(sender_id: &str, allowlist: &[String]) -> (r: bool)
    ensures
        r == on_allowlist(sender_id@, allowlist@),
{
    allowlist.len() == 0 || lists_text(allowlist, sender_id)
}

/// An empty allowlist matches everyone; any other list matches exactly those it names.
pub proof fn empty_allowlist_matches_everyone(sender_id: Seq<char>, allowlist: Seq<String>)
    ensures
        allowlist.len() == 0 ==> on_allowlist(sender_id, allowlist),
        allowlist.len() > 0 ==> (on_allowlist(sender_id, allowlist) <==> lists(
            allowlist,
            sender_id,
        )),
{
}

/// The first value that is set: the user's, else the channel's, else the account's.
pub open spec fn first_set<T>(user: Option<T>, channel: Option<T>, account: Option<T>) -> Option<
    T,
> {
    if user is Some {
        user
    } else if channel is Some {
        channel
    } else {
        account
    }
}

/// `r` is the first value that is set, where each level says which values it may give. A
/// level is asked only where nothing narrower is set.
pub open spec fn first_of<T>(
    user: spec_fn(Option<T>) -> bool,
    channel: spec_fn(Option<T>) -> bool,
    account: spec_fn(Option<T>) -> bool,
    r: Option<T>,
) -> bool {
    exists|u: Option<T>| #[trigger]
        user(u) && match u {
            Some(_) => r == u,
            None => exists|c: Option<T>| #[trigger]
                channel(c) && match c {
                    Some(_) => r == c,
                    None => account(r),
                },
        }
}

/// Typed read-only view of common channel account config fields.
///
/// Each plugin's concrete config type implements this trait. The gateway reads these
/// typed fields instead of digging into raw JSON.
pub trait ChannelConfigView: Send + Sync + std::fmt::Debug {
    /// Who may write to the bot in a direct chat.
    type DmPolicy;

    /// Which groups the bot answers in.
    type GroupPolicy;

    /// DM user/peer allowlist.
    fn allowlist(&self) -> &[String];

    /// Group/chat ID allowlist.
    fn group_allowlist(&self) -> &[String];

    /// Senders allowed to run privileged actions (`/sh`, shell command mode, host-reaching
    /// tools).
    ///
    /// Separate from [`Self::allowlist`], which only decides who may talk to the bot. In a
    /// group chat every member can pass the access gate, so privilege needs its own list.
    ///
    /// An empty list grants nobody privileged access.
    fn operators(&self) -> (r: &[String])
        default_ensures
            r@.len() == 0,
    {
        &[]
    }

    /// Tool audience ceiling for untrusted turns on this account.
    fn untrusted_audience(&self) -> (r: UntrustedAudience)
        default_ensures
            r == UntrustedAudience::Public,
    {
        UntrustedAudience::default()
    }

    /// Name policy for untrusted turns on this account.
    fn untrusted_tools(&self) -> (r: UntrustedTools)
        default_ensures
            r == UntrustedTools::DenyAll,
    {
        UntrustedTools::default()
    }

    /// DM access policy.
    fn dm_policy(&self) -> Self::DmPolicy;

    /// Group access policy.
    fn group_policy(&self) -> Self::GroupPolicy;

    /// Default model ID for this channel account.
    fn model(&self) -> Option<&str>;

    /// Provider name associated with the model.
    fn model_provider(&self) -> Option<&str>;

    /// Default agent id for this channel account.
    fn agent_id(&self) -> (r: Option<&str>)
        default_ensures
            r is None,
    {
        None
    }

    /// Whether `sender_id`, as this channel reports it, is on [`Self::allowlist`].
    ///
    /// The default compares text and is right for channels with one spelling per identity;
    /// override it where an identity has several. An empty allowlist matches everyone:
    /// callers that treat "nobody is authorized" differently must check for empty
    /// themselves.
    fn sender_on_allowlist(&self, sender_id: &str) -> (r: bool)
        default_ensures
            exists|list: &[String]| #[trigger]
                call_ensures(Self::allowlist, (self,), list) && r == on_allowlist(
                    sender_id@,
                    list@,
                ),
    {
        sender_matches_allowlist(sender_id, self.allowlist())
    }

    /// Model override for a specific channel/chat ID.
    fn channel_model(&self, _channel_id: &str) -> (r: Option<&str>)
        default_ensures
            r is None,
    {
        None
    }

    /// Provider override for a specific channel/chat ID.
    fn channel_model_provider(&self, _channel_id: &str) -> (r: Option<&str>)
        default_ensures
            r is None,
    {
        None
    }

    /// Model override for a specific user.
    fn user_model(&self, _user_id: &str) -> (r: Option<&str>)
        default_ensures
            r is None,
    {
        None
    }

    /// Provider override for a specific user.
    fn user_model_provider(&self, _user_id: &str) -> (r: Option<&str>)
        default_ensures
            r is None,
    {
        None
    }

    /// Agent override for a specific channel/chat ID.
    fn channel_agent_id(&self, _channel_id: &str) -> (r: Option<&str>)
        default_ensures
            r is None,
    {
        None
    }

    /// Agent override for a specific user.
    fn user_agent_id(&self, _user_id: &str) -> (r: Option<&str>)
        default_ensures
            r is None,
    {
        None
    }

    /// Resolve effective model: user > channel > account default.
    fn resolve_model(&self, channel_id: &str, user_id: &str) -> (r: Option<&str>)
        default_ensures
            first_of(
                |user: Option<&str>| call_ensures(Self::user_model, (self, user_id), user),
                |channel: Option<&str>|
                    call_ensures(Self::channel_model, (self, channel_id), channel),
                |account: Option<&str>| call_ensures(Self::model, (self,), account),
                r,
            ),
    {
        let user = self.user_model(user_id);
        let ghost by_user = |user: Option<&str>|
            call_ensures(Self::user_model, (self, user_id), user);
        assert(by_user(user));
        if user.is_some() {
            return user;
        }
        let channel = self.channel_model(channel_id);
        let ghost by_channel = |channel: Option<&str>|
            call_ensures(Self::channel_model, (self, channel_id), channel);
        assert(by_channel(channel));
        if channel.is_some() {
            return channel;
        }
        self.model()
    }

    /// Resolve effective provider: user > channel > account default.
    fn resolve_model_provider(&self, channel_id: &str, user_id: &str) -> (r: Option<&str>)
        default_ensures
            first_of(
                |user: Option<&str>| call_ensures(Self::user_model_provider, (self, user_id), user),
                |channel: Option<&str>|
                    call_ensures(Self::channel_model_provider, (self, channel_id), channel),
                |account: Option<&str>| call_ensures(Self::model_provider, (self,), account),
                r,
            ),
    {
        let user = self.user_model_provider(user_id);
        let ghost by_user = |user: Option<&str>|
            call_ensures(Self::user_model_provider, (self, user_id), user);
        assert(by_user(user));
        if user.is_some() {
            return user;
        }
        let channel = self.channel_model_provider(channel_id);
        let ghost by_channel = |channel: Option<&str>|
            call_ensures(Self::channel_model_provider, (self, channel_id), channel);
        assert(by_channel(channel));
        if channel.is_some() {
            return channel;
        }
        self.model_provider()
    }

    /// Resolve effective agent id: user > channel > account default.
    fn resolve_agent_id(&self, channel_id: &str, user_id: &str) -> (r: Option<&str>)
        default_ensures
            first_of(
                |user: Option<&str>| call_ensures(Self::user_agent_id, (self, user_id), user),
                |channel: Option<&str>|
                    call_ensures(Self::channel_agent_id, (self, channel_id), channel),
                |account: Option<&str>| call_ensures(Self::agent_id, (self,), account),
                r,
            ),
    {
        let user = self.user_agent_id(user_id);
        let ghost by_user = |user: Option<&str>|
            call_ensures(Self::user_agent_id, (self, user_id), user);
        assert(by_user(user));
        if user.is_some() {
            return user;
        }
        let channel = self.channel_agent_id(channel_id);
        let ghost by_channel = |channel: Option<&str>|
            call_ensures(Self::channel_agent_id, (self, channel_id), channel);
        assert(by_channel(channel));
        if channel.is_some() {
            return channel;
        }
        self.agent_id()
    }
}

/// The level gives that value and no other.
pub open spec fn gives_only<T>(level: spec_fn(Option<T>) -> bool, value: Option<T>) -> bool {
    forall|v: Option<T>| #[trigger] level(v) ==> v == value
}

/// Where each level gives one value, the effective one is the first that is set: the
/// user's, else the channel's, else the account's, else none.
pub proof fn first_set_is_effective<T>(
    user: spec_fn(Option<T>) -> bool,
    channel: spec_fn(Option<T>) -> bool,
    account: spec_fn(Option<T>) -> bool,
    values: (Option<T>, Option<T>, Option<T>),
    r: Option<T>,
)
    requires
        gives_only(user, values.0),
        gives_only(channel, values.1),
        gives_only(account, values.2),
        first_of(user, channel, account, r),
    ensures
        values.0 is Some ==> r == values.0,
        values.0 is None && values.1 is Some ==> r == values.1,
        values.0 is None && values.1 is None ==> r == values.2,
        r == first_set(values.0, values.1, values.2),
{
}

/// The provider methods of a config give those values: for the user, for the channel and
/// for the account.
pub open spec fn has_providers<C: ChannelConfigView>(
    config: &C,
    channel_id: &str,
    user_id: &str,
    values: (Option<&str>, Option<&str>, Option<&str>),
) -> bool {
    &&& gives_only(
        |v: Option<&str>| call_ensures(C::user_model_provider, (config, user_id), v),
        values.0,
    )
    &&& gives_only(
        |v: Option<&str>| call_ensures(C::channel_model_provider, (config, channel_id), v),
        values.1,
    )
    &&& gives_only(|v: Option<&str>| call_ensures(C::model_provider, (config,), v), values.2)
}

/// `r` is what a config that keeps the default
/// [`ChannelConfigView::resolve_model_provider`] resolves.
pub open spec fn resolved_provider<C: ChannelConfigView>(
    config: &C,
    channel_id: &str,
    user_id: &str,
    r: Option<&str>,
) -> bool {
    first_of(
        |user: Option<&str>| call_ensures(C::user_model_provider, (config, user_id), user),
        |channel: Option<&str>|
            call_ensures(C::channel_model_provider, (config, channel_id), channel),
        |account: Option<&str>| call_ensures(C::model_provider, (config,), account),
        r,
    )
}

/// The effective provider does not depend on the models: two configs that agree on the
/// three provider methods resolve the same provider, the first one that is set, whichever
/// level their models come from.
pub proof fn provider_ignores_the_models<A: ChannelConfigView, B: ChannelConfigView>(
    a: &A,
    b: &B,
    channel_id: &str,
    user_id: &str,
    values: (Option<&str>, Option<&str>, Option<&str>),
    of_a: Option<&str>,
    of_b: Option<&str>,
)
    requires
        has_providers(a, channel_id, user_id, values),
        has_providers(b, channel_id, user_id, values),
        resolved_provider(a, channel_id, user_id, of_a),
        resolved_provider(b, channel_id, user_id, of_b),
    ensures
        of_a == of_b,
        values.0 is Some ==> of_a == values.0,
        values.0 is None && values.1 is Some ==> of_a == values.1,
        values.0 is None && values.1 is None ==> of_a == values.2,
{
    lemma_first_provider(a, channel_id, user_id, values, of_a);
    lemma_first_provider(b, channel_id, user_id, values, of_b);
}

proof fn lemma_first_provider<C: ChannelConfigView>(
    config: &C,
    channel_id: &str,
    user_id: &str,
    values: (Option<&str>, Option<&str>, Option<&str>),
    r: Option<&str>,
)
    requires
        has_providers(config, channel_id, user_id, values),
        resolved_provider(config, channel_id, user_id, r),
    ensures
        values.0 is Some ==> r == values.0,
        values.0 is None && values.1 is Some ==> r == values.1,
        values.0 is None && values.1 is None ==> r == values.2,
{
    first_set_is_effective(
        |v: Option<&str>| call_ensures(C::user_model_provider, (config, user_id), v),
        |v: Option<&str>| call_ensures(C::channel_model_provider, (config, channel_id), v),
        |v: Option<&str>| call_ensures(C::model_provider, (config,), v),
        values,
        r,
    );
}

/// A list holds a text where one of its entries, wherever it stands, is exactly that text,
/// and nowhere else.
pub proof fn lists_hold_exact_entries(list: &[String], wanted: &str, r: bool)
    requires
        call_ensures(lists_text, (list, wanted), r),
    ensures
        forall|i: int| 0 <= i < list@.len() && (#[trigger] list@[i])@ == wanted@ ==> r,
        (forall|i: int| 0 <= i < list@.len() ==> (#[trigger] list@[i])@ != wanted@) ==> !r,
        lists(list@, wanted@) == r,
{
}

/// A sender is let through where the allowlist is empty or has an entry that is exactly the
/// sender's ID, and nowhere else.
pub proof fn allowlists_let_their_entries_through(sender_id: &str, allowlist: &[String], r: bool)
    requires
        call_ensures(sender_matches_allowlist, (sender_id, allowlist), r),
    ensures
        allowlist@.len() == 0 ==> r,
        forall|i: int| 0 <= i < allowlist@.len() && (#[trigger] allowlist@[i])@ == sender_id@ ==> r,
        allowlist@.len() > 0 && (forall|i: int|
            0 <= i < allowlist@.len() ==> (#[trigger] allowlist@[i])@ != sender_id@) ==> !r,
        on_allowlist(sender_id@, allowlist@) == r,
{
}

/// An account keeps the ceiling that it sets; an account that is not known has the tightest.
pub proof fn accounts_keep_their_ceiling(
    audience: UntrustedAudience,
    tools: UntrustedTools,
    account: Option<(UntrustedAudience, UntrustedTools)>,
    r: (UntrustedAudience, UntrustedTools),
)
    requires
        call_ensures(resolve_untrusted_ceiling, (account,), r),
    ensures
        account == Some((audience, tools)) ==> r == (audience, tools),
        account is None ==> r == (UntrustedAudience::Public, UntrustedTools::DenyAll),
        ceiling_of(account) == r,
{
}

/// An account whose overrides are the same for every channel and for every user. It keeps
/// every default of [`ChannelConfigView`] that it can.
#[derive(Debug)]
pub struct FixedConfig {
    pub allowlist: Vec<String>,
    pub group_allowlist: Vec<String>,
    pub model: Option<String>,
    pub model_provider: Option<String>,
    pub agent_id: Option<String>,
    pub channel_model: Option<String>,
    pub channel_model_provider: Option<String>,
    pub channel_agent_id: Option<String>,
    pub user_model: Option<String>,
    pub user_model_provider: Option<String>,
    pub user_agent_id: Option<String>,
}

impl ChannelConfigView for FixedConfig {
    type DmPolicy = ();

    type GroupPolicy = ();

    fn allowlist(&self) -> (r: &[String])
        ensures
            r@ == self.allowlist@,
    {
        self.allowlist.as_slice()
    }

    fn group_allowlist(&self) -> (r: &[String])
        ensures
            r@ == self.group_allowlist@,
    {
        self.group_allowlist.as_slice()
    }

    fn dm_policy(&self) {
    }

    fn group_policy(&self) {
    }

    fn channel_model(&self, _channel_id: &str) -> (r: Option<&str>)
        ensures
            opt_str(r) == opt_text(self.channel_model),
    {
        slice_of(&self.channel_model)
    }

    fn channel_model_provider(&self, _channel_id: &str) -> (r: Option<&str>)
        ensures
            opt_str(r) == opt_text(self.channel_model_provider),
    {
        slice_of(&self.channel_model_provider)
    }

    fn channel_agent_id(&self, _channel_id: &str) -> (r: Option<&str>)
        ensures
            opt_str(r) == opt_text(self.channel_agent_id),
    {
        slice_of(&self.channel_agent_id)
    }

    fn user_model(&self, _user_id: &str) -> (r: Option<&str>)
        ensures
            opt_str(r) == opt_text(self.user_model),
    {
        slice_of(&self.user_model)
    }

    fn user_model_provider(&self, _user_id: &str) -> (r: Option<&str>)
        ensures
            opt_str(r) == opt_text(self.user_model_provider),
    {
        slice_of(&self.user_model_provider)
    }

    fn user_agent_id(&self, _user_id: &str) -> (r: Option<&str>)
        ensures
            opt_str(r) == opt_text(self.user_agent_id),
    {
        slice_of(&self.user_agent_id)
    }

    fn model(&self) -> (r: Option<&str>)
        ensures
            opt_str(r) == opt_text(self.model),
    {
        slice_of(&self.model)
    }

    fn model_provider(&self) -> (r: Option<&str>)
        ensures
            opt_str(r) == opt_text(self.model_provider),
    {
        slice_of(&self.model_provider)
    }

    fn agent_id(&self) -> (r: Option<&str>)
        ensures
            opt_str(r) == opt_text(self.agent_id),
    {
        slice_of(&self.agent_id)
    }
}

/// The default resolution of the model: the user's where it is set, else the channel's where
/// that is set, else the account's, whatever the channel and the user are.
pub proof fn models_resolve_user_before_channel_before_account(
    config: &FixedConfig,
    channel_id: &str,
    user_id: &str,
    r: Option<&str>,
)
    requires
        call_ensures(FixedConfig::resolve_model, (config, channel_id, user_id), r),
    ensures
        config.user_model is Some ==> r is Some && r->0@ == config.user_model->0@,
        config.user_model is None && config.channel_model is Some ==> r is Some && r->0@
            == config.channel_model->0@,
        config.user_model is None && config.channel_model is None && config.model is Some
            ==> r is Some
            && r->0@ == config.model->0@,
        config.user_model is None && config.channel_model is None && config.model is None
            ==> r is None,
{
}

/// The default resolution of the provider: the user's where it is set, else the channel's where
/// that is set, else the account's, whatever the channel and the user are.
pub proof fn providers_resolve_user_before_channel_before_account(
    config: &FixedConfig,
    channel_id: &str,
    user_id: &str,
    r: Option<&str>,
)
    requires
        call_ensures(FixedConfig::resolve_model_provider, (config, channel_id, user_id), r),
    ensures
        config.user_model_provider is Some ==> r is Some && r->0@ == config.user_model_provider->0@,
        config.user_model_provider is None && config.channel_model_provider is Some
            ==> r is Some && r->0@
            == config.channel_model_provider->0@,
        config.user_model_provider is None && config.channel_model_provider is None && config.model_provider is Some
            ==> r is Some
            && r->0@ == config.model_provider->0@,
        config.user_model_provider is None && config.channel_model_provider is None && config.model_provider is None
            ==> r is None,
{
}

/// The default resolution of the agent: the user's where it is set, else the channel's where
/// that is set, else the account's, whatever the channel and the user are.
pub proof fn agents_resolve_user_before_channel_before_account(
    config: &FixedConfig,
    channel_id: &str,
    user_id: &str,
    r: Option<&str>,
)
    requires
        call_ensures(FixedConfig::resolve_agent_id, (config, channel_id, user_id), r),
    ensures
        config.user_agent_id is Some ==> r is Some && r->0@ == config.user_agent_id->0@,
        config.user_agent_id is None && config.channel_agent_id is Some ==> r is Some && r->0@
            == config.channel_agent_id->0@,
        config.user_agent_id is None && config.channel_agent_id is None && config.agent_id is Some
            ==> r is Some
            && r->0@ == config.agent_id->0@,
        config.user_agent_id is None && config.channel_agent_id is None && config.agent_id is None
            ==> r is None,
{
}

/// What an account has where it sets nothing: no operators, the public audience and no tools.
pub proof fn unset_accounts_fail_closed(
    config: &FixedConfig,
    operators: &[String],
    audience: UntrustedAudience,
    tools: UntrustedTools,
)
    requires
        call_ensures(FixedConfig::operators, (config,), operators),
        call_ensures(FixedConfig::untrusted_audience, (config,), audience),
        call_ensures(FixedConfig::untrusted_tools, (config,), tools),
    ensures
        operators@.len() == 0,
        audience == UntrustedAudience::Public,
        tools == UntrustedTools::DenyAll,
{
}

/// By default a sender is on the allowlist where the list is empty or has an entry, wherever
/// it stands, that is exactly the sender's ID, and nowhere else.
pub proof fn senders_are_on_the_allowlist_by_entry(config: &FixedConfig, sender_id: &str, r: bool)
    requires
        call_ensures(FixedConfig::sender_on_allowlist, (config, sender_id), r),
    ensures
        config.allowlist@.len() == 0 ==> r,
        forall|i: int|
            0 <= i < config.allowlist@.len() && (#[trigger] config.allowlist@[i])@ == sender_id@
                ==> r,
        config.allowlist@.len() > 0 && (forall|i: int|
            0 <= i < config.allowlist@.len() ==> (#[trigger] config.allowlist@[i])@ != sender_id@)
            ==> !r,
{
}

} // verus!
