use vstd::prelude::*;
use vstd::string::*;
use crate::job::JobStartResponse;

verus! {

/// A bearer token and the instant it stops being usable, in nanoseconds since
/// the Unix epoch (UTC).
#[derive(Debug)]
pub struct AzureAccessToken {
    pub access_token: String,
    pub expires_at: i128,
}

impl AzureAccessToken {
    pub fn new(access_token: String, expires_at: i128) -> (r: AzureAccessToken)
        ensures
            r.access_token == access_token,
            r.expires_at == expires_at,
    {
        AzureAccessToken { access_token, expires_at }
    }

    /// A copy with the same token text and expiry.
    pub fn copy(&self) -> (r: AzureAccessToken)
        ensures
            r@ == self@,
    {
        AzureAccessToken { access_token: self.access_token.clone(), expires_at: self.expires_at }
    }

    pub fn access_token(&self) -> (r: &str)
        ensures
            r@ == self.access_token@,
    {
        self.access_token.as_str()
    }

    pub fn expires_at(&self) -> (r: i128)
        ensures
            r == self.expires_at,
    {
        self.expires_at
    }
}

impl View for AzureAccessToken {
    type V = (Seq<char>, int);

    open spec fn view(&self) -> (Seq<char>, int) {
        (self.access_token@, self.expires_at as int)
    }
}

/// The credential that a cache holds at instant `now`, if it may be used then:
/// only while `now` is strictly before its expiry.
pub open spec fn usable_token(cache: Option<(Seq<char>, int)>, now: int) -> Option<(Seq<char>, int)> {
    match cache {
        Some(t) => if now < t.1 {
            Some(t)
        } else {
            None
        },
        None => None,
    }
}

/// The view of an optional cached token.
pub open spec fn cache_view(c: Option<AzureAccessToken>) -> Option<(Seq<char>, int)> {
    match c {
        Some(t) => Some(t@),
        None => None,
    }
}

/// The credential stored after a token exchange: an expiry the provider
/// omitted defaults to the exchange instant, so the token is stale at once.
pub open spec fn refreshed_token(token: Seq<char>, expires_on: Option<i128>, now: i128) -> (Seq<char>, int) {
    match expires_on {
        Some(e) => (token, e as int),
        None => (token, now as int),
    }
}

/// Relies on time::OffsetDateTime::now_utc and unix_timestamp_nanos: the
/// current instant in nanoseconds since the epoch; nothing is promised of it.
#[verifier::external_body]
fn now_unix_nanos() -> (r: i128) {
    time::OffsetDateTime::now_utc().unix_timestamp_nanos()
}

/// The OAuth scope that tokens are requested for.
pub fn token_scope() -> (r: &'static str)
    ensures
        r@ == "https://management.azure.com/.default"@,
{
    "https://management.azure.com/.default"
}

/// The target of a start-job request.
pub open spec fn start_job_url_of(subscription_id: Seq<char>, resource_group: Seq<char>, job_name: Seq<char>) -> Seq<char> {
    "https://management.azure.com/subscriptions/"@ + subscription_id + "/resourceGroups/"@
        + resource_group + "/providers/Microsoft.App/jobs/"@ + job_name
        + "/start?api-version=2024-03-01"@
}

/// The target of a status request: the execution's own resource path.
pub open spec fn status_url_of(execution_id: Seq<char>) -> Seq<char> {
    "https://management.azure.com"@ + execution_id + "?api-version=2024-03-01"@
}

/// The value of the Authorization header for a token.
pub open spec fn bearer_of(token: Seq<char>) -> Seq<char> {
    "Bearer "@ + token
}

/// The URL of a status request for a started execution.
pub fn execution_status_url(execution: &JobStartResponse) -> (r: String)
    ensures
        r@ == status_url_of(execution.id@),
{
    let mut s = String::from_str("https://management.azure.com");
    s.append(execution.id.as_str());
    s.append("?api-version=2024-03-01");
    s
}

/// The Authorization header value for a token.
pub fn bearer_header(token: &AzureAccessToken) -> (r: String)
    ensures
        r@ == bearer_of(token.access_token@),
{
    let mut s = String::from_str("Bearer ");
    s.append(token.access_token.as_str());
    s
}

/// A client of the container-app jobs API: the identity it signs in with, the
/// resource group it works in, and the bearer token it holds between calls.
pub struct AzureContainerAppClient {
    client_id: String,
    client_secret: String,
    tenant_id: String,
    subscription_id: String,
    resource_group: String,
    access_token: Option<AzureAccessToken>,
}

impl AzureContainerAppClient {
    /// The cached credential, if any.
    pub closed spec fn cached(&self) -> Option<(Seq<char>, int)> {
        cache_view(self.access_token)
    }

    pub closed spec fn client_id_view(&self) -> Seq<char> {
        self.client_id@
    }

    pub closed spec fn client_secret_view(&self) -> Seq<char> {
        self.client_secret@
    }

    pub closed spec fn tenant_id_view(&self) -> Seq<char> {
        self.tenant_id@
    }

    pub closed spec fn subscription_id_view(&self) -> Seq<char> {
        self.subscription_id@
    }

    pub closed spec fn resource_group_view(&self) -> Seq<char> {
        self.resource_group@
    }

    /// Two clients with the same identity and resource group.
    pub open spec fn same_settings(&self, other: &AzureContainerAppClient) -> bool {
        &&& self.client_id_view() == other.client_id_view()
        &&& self.client_secret_view() == other.client_secret_view()
        &&& self.tenant_id_view() == other.tenant_id_view()
        &&& self.subscription_id_view() == other.subscription_id_view()
        &&& self.resource_group_view() == other.resource_group_view()
    }

    /// A client with no cached token.
    pub fn new(
        client_id: String,
        client_secret: String,
        tenant_id: String,
        subscription_id: String,
        resource_group: String,
    ) -> (r: AzureContainerAppClient)
        ensures
            r.client_id_view() == client_id@,
            r.client_secret_view() == client_secret@,
            r.tenant_id_view() == tenant_id@,
            r.subscription_id_view() == subscription_id@,
            r.resource_group_view() == resource_group@,
            r.cached() is None,
    {
        AzureContainerAppClient {
            client_id,
            client_secret,
            tenant_id,
            subscription_id,
            resource_group,
            access_token: None,
        }
    }
    /// The cached token, if it may be used at instant `now`: then no token
    /// exchange is made and the cached value is returned as it is. `None`
    /// when nothing is cached or the cached token has expired, and the caller
    /// exchanges credentials once.
    pub fn cached_token_at(&self, now: i128) -> (r: Option<AzureAccessToken>)
        ensures
            cache_view(r) == usable_token(self.cached(), now as int),
    {
        match &self.access_token {
            Some(t) => if now < t.expires_at {
                Some(t.copy())
            } else {
                None
            },
            None => None,
        }
    }

    /// The cached token if it may be used now, judged against one reading of
    /// the clock.
    pub fn cached_token(&self) -> (r: Option<AzureAccessToken>)
        ensures
            exists|now: int| cache_view(r) == #[trigger] usable_token(self.cached(), now),
            r is Some ==> cache_view(r) == self.cached(),
            self.cached() is None ==> r is None,
    {
        let now = now_unix_nanos();
        let r = self.cached_token_at(now);
        assert(cache_view(r) == usable_token(self.cached(), now as int));
        r
    }

    /// Stores the token of a successful exchange made at instant `now` and
    /// returns it; a missing expiry makes it stale at once.
    pub fn accept_token_at(&mut self, access_token: String, expires_on: Option<i128>, now: i128) -> (r: AzureAccessToken)
        ensures
            r@ == refreshed_token(access_token@, expires_on, now),
            final(self).cached() == Some(r@),
            final(self).same_settings(old(self)),
    {
        let expires_at = match expires_on {
            Some(e) => e,
            None => now,
        };
        let t = AzureAccessToken { access_token, expires_at };
        let r = t.copy();
        self.access_token = Some(t);
        r
    }

    /// Stores the token of a successful exchange, reading the clock only when
    /// the provider gave no expiry.
    pub fn accept_token(&mut self, access_token: String, expires_on: Option<i128>) -> (r: AzureAccessToken)
        ensures
            r@.0 == access_token@,
            expires_on matches Some(e) ==> r@.1 == e,
            final(self).cached() == Some(r@),
            final(self).same_settings(old(self)),
    {
        let now = match expires_on {
            Some(e) => e,
            None => now_unix_nanos(),
        };
        self.accept_token_at(access_token, expires_on, now)
    }

    /// The URL of the start request for a job of this client's resource group.
    pub fn start_job_url(&self, job_name: &str) -> (r: String)
        ensures
            r@ == start_job_url_of(self.subscription_id_view(), self.resource_group_view(), job_name@),
    {
        let mut s = String::from_str("https://management.azure.com/subscriptions/");
        s.append(self.subscription_id.as_str());
        s.append("/resourceGroups/");
        s.append(self.resource_group.as_str());
        s.append("/providers/Microsoft.App/jobs/");
        s.append(job_name);
        s.append("/start?api-version=2024-03-01");
        s
    }

    pub fn client_id(&self) -> (r: &str)
        ensures
            r@ == self.client_id_view(),
    {
        self.client_id.as_str()
    }

    pub fn client_secret(&self) -> (r: &str)
        ensures
            r@ == self.client_secret_view(),
    {
        self.client_secret.as_str()
    }

    pub fn tenant_id(&self) -> (r: &str)
        ensures
            r@ == self.tenant_id_view(),
    {
        self.tenant_id.as_str()
    }
}

/// A token stored with an expiry is reused, unchanged, at every instant
/// before that expiry.
pub proof fn lemma_fresh_token_reused(token: Seq<char>, expires_on: i128, exchanged_at: i128, now: i128)
    requires
        now < expires_on,
    ensures
        usable_token(Some(refreshed_token(token, Some(expires_on), exchanged_at)), now as int)
            == Some((token, expires_on as int)),
{
}

/// A token stored without an expiry is never reused at or after the instant
/// of its exchange.
pub proof fn lemma_token_without_expiry_is_stale(token: Seq<char>, exchanged_at: i128, now: i128)
    requires
        exchanged_at <= now,
    ensures
        usable_token(Some(refreshed_token(token, None, exchanged_at)), now as int) is None,
{
}

/// A cache that is empty, or holds a token whose expiry is not after `now`,
/// yields nothing, so exactly one exchange follows.
pub proof fn lemma_stale_or_absent_needs_exchange(cache: Option<(Seq<char>, int)>, now: int)
    requires
        cache matches Some(t) ==> t.1 <= now,
    ensures
        usable_token(cache, now) is None,
{
}

} // verus!
