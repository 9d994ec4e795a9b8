//! The client handle: credentials, the option registry, the last nonce issued,
//! and the transport through which requests travel; and the construction of
//! public and private requests.

use std::collections::HashMap;
use vstd::prelude::*;
use vstd::string::StringExecFns;
use vstd::utf8::encode_utf8;

use crate::crypto::{base64_decoded, sign, signature};
use crate::error::{error_text, ApiError};
use crate::nonce::{
    clock_micros, decimal, next_nonce, nonce_after, push_decimal, signed_decimal,
    signed_decimal_text,
};
use crate::options::{option_code, API_Option};
use crate::orders::{
    instruction_text, order_type_text, report_type_text, Instruction, Order_Type, Report_Type,
};
use crate::query::{build_query, query_of, texts_of};

verus! {

broadcast use vstd::std_specs::hash::group_hash_axioms;

/// The number of bytes in an account secret as the exchange issues it.
pub const SECRET_LEN: usize = 88;

/// Carries requests to the exchange and hands back the body of its answer.
///
/// The answer's text is returned whatever the HTTP status: the exchange
/// reports its own errors inside the JSON body. `Err` means that the exchange
/// could not be reached or the answer could not be read.
pub trait Transport {
    /// Sends a GET request to `url`.
    fn get(&mut self, url: &str) -> Result<String, String>;

    /// Sends a POST request to `url` with the `API-Key` and `API-Sign` headers
    /// and `body` as its form-encoded payload.
    fn post(&mut self, url: &str, api_key: &str, api_sign: &str, body: &str) -> Result<
        String,
        String,
    >;
}

/// The parts of a signed request to a private end-point.
pub struct PrivateRequest {
    /// The full URL.
    pub url: String,
    /// The value of the `API-Key` header: the account key.
    pub api_key: String,
    /// The value of the `API-Sign` header.
    pub api_sign: String,
    /// The form-encoded POST payload: the query string and the nonce.
    pub body: String,
}

/// The URL of a public end-point, with its query string where there is one.
pub open spec fn public_url_of(endpoint: Seq<char>, query: Seq<char>) -> Seq<char> {
    if query.len() == 0 {
        "https://api.kraken.com/0/public/"@ + endpoint
    } else {
        "https://api.kraken.com/0/public/"@ + endpoint + "?"@ + query
    }
}

/// The URL of a private end-point.
pub open spec fn private_url_of(endpoint: Seq<char>) -> Seq<char> {
    "https://api.kraken.com/0/private/"@ + endpoint
}

/// The path of a private end-point, which the signature covers.
pub open spec fn private_path_of(endpoint: Seq<char>) -> Seq<char> {
    "/0/private/"@ + endpoint
}

/// The POST payload of a private request: the query string, then the nonce
/// as the last parameter.
pub open spec fn private_body_of(query: Seq<char>, nonce: u128) -> Seq<char> {
    if query.len() == 0 {
        "nonce="@ + decimal(nonce as nat)
    } else {
        query + "&"@ + "nonce="@ + decimal(nonce as nat)
    }
}

/// A registry after each option of `sets` is given its text, in turn.
pub open spec fn with_texts(
    registry: Map<u64, Seq<char>>,
    sets: Seq<(API_Option, Seq<char>)>,
) -> Map<u64, Seq<char>>
    decreases sets.len(),
{
    if sets.len() == 0 {
        registry
    } else {
        with_texts(registry, sets.drop_last()).insert(option_code(sets.last().0), sets.last().1)
    }
}

/// Clearing every option and then setting some leaves exactly those set: an
/// option is in the registry if and only if it was set again, and holds the
/// last text given to it.
pub proof fn lemma_reset_leaves_exactly(sets: Seq<(API_Option, Seq<char>)>)
    ensures
        forall|o: API_Option|
            #![trigger with_texts(Map::empty(), sets).contains_key(option_code(o))]
            with_texts(Map::empty(), sets).contains_key(option_code(o)) <==> exists|i: int|
                0 <= i < sets.len() && sets[i].0 == o,
        forall|i: int|
            0 <= i < sets.len() && (forall|j: int| i < j < sets.len() ==> sets[j].0 != sets[i].0)
                ==> with_texts(Map::empty(), sets)[option_code(sets[i].0)] == sets[i].1,
        forall|k: u64|
            with_texts(Map::empty(), sets).contains_key(k) ==> exists|o: API_Option|
                option_code(o) == k,
    decreases sets.len(),
{
    if sets.len() > 0 {
        let prev = sets.drop_last();
        lemma_reset_leaves_exactly(prev);
        let m = with_texts(Map::empty(), sets);
        let last = sets.last();
        assert forall|o: API_Option|
            m.contains_key(option_code(o)) <==> exists|i: int|
                0 <= i < sets.len() && sets[i].0 == o by {
            crate::options::lemma_option_code_injective(o, last.0);
            if m.contains_key(option_code(o)) {
                if o == last.0 {
                    assert(sets[sets.len() - 1].0 == o);
                } else {
                    assert(with_texts(Map::empty(), prev).contains_key(option_code(o)));
                    let i = choose|i: int| 0 <= i < prev.len() && prev[i].0 == o;
                    assert(sets[i].0 == o);
                }
            }
            if exists|i: int| 0 <= i < sets.len() && sets[i].0 == o {
                let i = choose|i: int| 0 <= i < sets.len() && sets[i].0 == o;
                if i < sets.len() - 1 {
                    assert(prev[i].0 == o);
                    assert(exists|i: int| 0 <= i < prev.len() && prev[i].0 == o);
                    assert(with_texts(Map::empty(), prev).contains_key(option_code(o)));
                } else {
                    assert(o == last.0);
                }
                assert(m.contains_key(option_code(o)));
            }
        }
        assert forall|i: int|
            0 <= i < sets.len() && (forall|j: int| i < j < sets.len() ==> sets[j].0 != sets[i].0)
                implies m[option_code(sets[i].0)] == sets[i].1 by {
            if i < sets.len() - 1 {
                crate::options::lemma_option_code_injective(sets[i].0, last.0);
                assert(sets[sets.len() - 1].0 != sets[i].0);
                assert(prev[i] == sets[i]);
                assert forall|j: int| i < j < prev.len() implies prev[j].0 != prev[i].0 by {
                    assert(prev[j] == sets[j]);
                }
            }
        }
        assert forall|k: u64| m.contains_key(k) implies exists|o: API_Option|
            option_code(o) == k by {
            if k == option_code(last.0) {
            } else {
                assert(with_texts(Map::empty(), prev).contains_key(k));
            }
        }
    }
}

/// The registries left by `clear_all_options` and then one `set_opt` per
/// entry of `sets` (each with the text of its value), in turn, end with exactly
/// the options set again: an option is there if and only if it was set again,
/// and holds the last text given to it; nothing from before the clearing
/// survives.
pub proof fn lemma_clear_then_set(
    registries: Seq<Map<u64, Seq<char>>>,
    sets: Seq<(API_Option, Seq<char>)>,
)
    requires
        registries.len() == sets.len() + 1,
        registries[0] == Map::<u64, Seq<char>>::empty(),
        forall|i: int|
            0 <= i < sets.len() ==> #[trigger] registries[i + 1] == registries[i].insert(
                option_code(sets[i].0),
                sets[i].1,
            ),
    ensures
        registries.last() == with_texts(Map::empty(), sets),
        forall|o: API_Option|
            #![trigger registries.last().contains_key(option_code(o))]
            registries.last().contains_key(option_code(o)) <==> exists|i: int|
                0 <= i < sets.len() && sets[i].0 == o,
        forall|i: int|
            0 <= i < sets.len() && (forall|j: int| i < j < sets.len() ==> sets[j].0 != sets[i].0)
                ==> registries.last()[option_code(sets[i].0)] == sets[i].1,
        forall|k: u64|
            registries.last().contains_key(k) ==> exists|o: API_Option| option_code(o) == k,
{
    lemma_registries_follow(registries, sets, sets.len() as int);
    assert(sets.subrange(0, sets.len() as int) == sets);
    lemma_reset_leaves_exactly(sets);
}

proof fn lemma_registries_follow(
    registries: Seq<Map<u64, Seq<char>>>,
    sets: Seq<(API_Option, Seq<char>)>,
    n: int,
)
    requires
        0 <= n <= sets.len(),
        registries.len() == sets.len() + 1,
        registries[0] == Map::<u64, Seq<char>>::empty(),
        forall|i: int|
            0 <= i < sets.len() ==> #[trigger] registries[i + 1] == registries[i].insert(
                option_code(sets[i].0),
                sets[i].1,
            ),
    ensures
        registries[n] == with_texts(Map::empty(), sets.subrange(0, n)),
    decreases n,
{
    if n > 0 {
        lemma_registries_follow(registries, sets, n - 1);
        assert(sets.subrange(0, n).drop_last() == sets.subrange(0, n - 1));
        let k = n - 1;
        assert(registries[k + 1] == registries[k].insert(option_code(sets[k].0), sets[k].1));
    } else {
        assert(sets.subrange(0, 0).len() == 0);
    }
}

/// A request as it was handed to the transport.
pub enum SentRequest {
    /// A GET request to a URL.
    Get { url: Seq<char> },
    /// A POST request with its two headers and its payload.
    Post { url: Seq<char>, api_key: Seq<char>, api_sign: Seq<char>, body: Seq<char> },
}

/// A handle on the exchange: credentials, the options set for the next
/// calls, and the transport. Options persist across calls until cleared.
pub struct Kraken_API<T> {
    key: String,
    secret: String,
    options: HashMap<u64, String>,
    last_nonce: u128,
    transport: T,
    sent: Ghost<Seq<SentRequest>>,
}

/// Obtains a handle with the given account key and secret. Nothing is checked
/// here: a secret of the wrong length is refused by each private call.
pub fn connect<T>(key: String, secret: String, transport: T) -> (r: Kraken_API<T>)
    ensures
        r.key_text() == key@,
        r.secret_text() == secret@,
        r.registry() == Map::<u64, Seq<char>>::empty(),
        r.last_nonce() == 0,
        r.transport() == transport,
        r.sent() == Seq::<SentRequest>::empty(),
{
    Kraken_API {
        key,
        secret,
        options: HashMap::new(),
        last_nonce: 0,
        transport,
        sent: Ghost(Seq::empty()),
    }
}

impl<T: Default> Default for Kraken_API<T> {
    /// A handle with no credentials, for the public end-points only.
    fn default() -> (r: Self)
        ensures
            r.key_text() == Seq::<char>::empty(),
            r.secret_text() == Seq::<char>::empty(),
            r.registry() == Map::<u64, Seq<char>>::empty(),
            r.last_nonce() == 0,
            r.sent() == Seq::<SentRequest>::empty(),
    {
        connect(String::new(), String::new(), T::default())
    }
}

impl<T> Kraken_API<T> {
    /// The account key.
    pub closed spec fn key_text(&self) -> Seq<char> {
        self.key@
    }

    /// The account secret, base64-encoded.
    pub closed spec fn secret_text(&self) -> Seq<char> {
        self.secret@
    }

    /// Whether the secret has the length that the exchange issues.
    pub open spec fn secret_well_formed(&self) -> bool {
        encode_utf8(self.secret_text()).len() == SECRET_LEN
    }

    /// The options set, each under the key of `option_code`.
    pub closed spec fn registry(&self) -> Map<u64, Seq<char>> {
        texts_of(self.options@)
    }

    /// The last nonce issued; zero before the first private call.
    pub closed spec fn last_nonce(&self) -> u128 {
        self.last_nonce
    }

    /// The transport.
    pub closed spec fn transport(&self) -> T {
        self.transport
    }

    /// The requests handed to the transport so far, oldest first.
    pub closed spec fn sent(&self) -> Seq<SentRequest> {
        self.sent@
    }

    /// The transport, for a look at its state.
    pub fn get_transport(&self) -> (r: &T)
        ensures
            *r == self.transport(),
    {
        &self.transport
    }

    /// Gives a value to an option, in place of any it had. It is sent to each
    /// end-point that accepts that option until it is cleared.
    pub fn set_opt<V: std::fmt::Display>(&mut self, opt: API_Option, value: V)
        ensures
            exists|s: String|
                vstd::string::to_string_from_display_ensures::<V>(&value, s)
                    && final(self).registry() == old(self).registry().insert(option_code(opt), s@),
            final(self).key_text() == old(self).key_text(),
            final(self).secret_text() == old(self).secret_text(),
            final(self).last_nonce() == old(self).last_nonce(),
            final(self).transport() == old(self).transport(),
            final(self).sent() == old(self).sent(),
    {
        let s = value.to_string();
        self.options.insert(opt.code(), s);
    }

    /// Gives an option the given text, in place of any it had.
    fn set_text(&mut self, opt: API_Option, value: &str)
        ensures
            final(self).registry() == old(self).registry().insert(option_code(opt), value@),
            final(self).key_text() == old(self).key_text(),
            final(self).secret_text() == old(self).secret_text(),
            final(self).last_nonce() == old(self).last_nonce(),
            final(self).transport() == old(self).transport(),
            final(self).sent() == old(self).sent(),
    {
        self.options.insert(opt.code(), String::from_str(value));
        proof {
            assert(texts_of(self.options@) =~= texts_of(old(self).options@).insert(
                option_code(opt),
                value@,
            ));
        }
    }

    /// Clears an option: no end-point is sent it until it is set again.
    pub fn clear_opt(&mut self, opt: API_Option)
        ensures
            final(self).registry() == old(self).registry().remove(option_code(opt)),
            final(self).key_text() == old(self).key_text(),
            final(self).secret_text() == old(self).secret_text(),
            final(self).last_nonce() == old(self).last_nonce(),
            final(self).transport() == old(self).transport(),
            final(self).sent() == old(self).sent(),
    {
        let code = opt.code();
        self.options.remove(&code);
    }

    /// Clears every option.
    pub fn clear_all_options(&mut self)
        ensures
            final(self).registry() == Map::<u64, Seq<char>>::empty(),
            final(self).key_text() == old(self).key_text(),
            final(self).secret_text() == old(self).secret_text(),
            final(self).last_nonce() == old(self).last_nonce(),
            final(self).transport() == old(self).transport(),
            final(self).sent() == old(self).sent(),
    {
        self.options.clear();
    }

    /// The query string that an end-point with this whitelist sends now.
    pub fn query_string(&self, whitelist: &[API_Option]) -> (r: String)
        ensures
            r@ == query_of(self.registry(), whitelist@),
    {
        build_query(&self.options, whitelist)
    }

    /// The URL of a GET request to a public end-point with this whitelist.
    pub fn public_url(&self, endpoint: &str, whitelist: &[API_Option]) -> (r: String)
        ensures
            r@ == public_url_of(endpoint@, query_of(self.registry(), whitelist@)),
    {
        let query = build_query(&self.options, whitelist);
        let mut url = String::from_str("https://api.kraken.com/0/public/");
        url.append(endpoint);
        if !query.as_str().is_empty() {
            url.append("?");
            url.append(query.as_str());
        }
        url
    }

    /// Builds the signed request to a private end-point with this whitelist,
    /// for the given nonce. `CredentialFormat` where the secret does not have
    /// 88 bytes; `SigningFailure` where the secret is not base64, or openssl
    /// fails while signing.
    pub fn private_request(&self, endpoint: &str, whitelist: &[API_Option], nonce: u128) -> (r:
        Result<PrivateRequest, ApiError>)
        ensures
            !self.secret_well_formed() ==> r == Err::<PrivateRequest, ApiError>(
                ApiError::CredentialFormat,
            ),
            r matches Err(e) ==> (e == ApiError::CredentialFormat <==> !self.secret_well_formed()),
            r matches Err(e) ==> e == ApiError::CredentialFormat || e == ApiError::SigningFailure,
            self.secret_well_formed() && base64_decoded(self.secret_text()) is None ==> r == Err::<
                PrivateRequest,
                ApiError,
            >(ApiError::SigningFailure),
            r matches Ok(q) ==> {
                &&& self.secret_well_formed()
                &&& q.url@ == private_url_of(endpoint@)
                &&& q.api_key@ == self.key_text()
                &&& q.body@ == private_body_of(query_of(self.registry(), whitelist@), nonce)
                &&& q.api_sign@ == signature(
                    self.secret_text(),
                    private_path_of(endpoint@),
                    decimal(nonce as nat),
                    q.body@,
                )
            },
    {
        let secret = self.secret.as_str();
        if secret.as_bytes().len() != SECRET_LEN {
            return Err(ApiError::CredentialFormat);
        }
        let query = build_query(&self.options, whitelist);
        let mut nonce_text = String::new();
        push_decimal(&mut nonce_text, nonce);
        let mut body = query;
        if !body.as_str().is_empty() {
            body.append("&");
        }
        body.append("nonce=");
        body.append(nonce_text.as_str());
        let mut path = String::from_str("/0/private/");
        path.append(endpoint);
        let api_sign = match sign(secret, path.as_str(), nonce_text.as_str(), body.as_str()) {
            Ok(s) => s,
            Err(e) => {
                return Err(e);
            },
        };
        let mut url = String::from_str("https://api.kraken.com/0/private/");
        url.append(endpoint);
        Ok(PrivateRequest { url, api_key: self.key.clone(), api_sign, body })
    }
}

impl<T> Kraken_API<T> {
    /// The POST request that a private call to `endpoint` with `whitelist`
    /// sends from this state, with `registry` as the options and `nonce` as
    /// its nonce.
    pub open spec fn private_post(
        self,
        registry: Map<u64, Seq<char>>,
        endpoint: Seq<char>,
        whitelist: Seq<API_Option>,
        nonce: u128,
    ) -> SentRequest {
        let body = private_body_of(query_of(registry, whitelist), nonce);
        SentRequest::Post {
            url: private_url_of(endpoint),
            api_key: self.key_text(),
            api_sign: signature(
                self.secret_text(),
                private_path_of(endpoint),
                decimal(nonce as nat),
                body,
            ),
            body,
        }
    }

    /// What a private call to `endpoint` with `whitelist` leaves, from this
    /// state with `registry` as the options at the time of the call. A handle
    /// whose secret does not have 88 bytes refuses with `CredentialFormat`,
    /// issues no nonce and sends nothing. Otherwise it issues a fresh nonce
    /// and sends the signed request under it, unless signing failed.
    pub open spec fn private_outcome(
        self,
        registry: Map<u64, Seq<char>>,
        endpoint: Seq<char>,
        whitelist: Seq<API_Option>,
        after: Self,
        r: Result<String, String>,
    ) -> bool {
        &&& after.key_text() == self.key_text()
        &&& after.secret_text() == self.secret_text()
        &&& after.registry() == registry
        &&& !self.secret_well_formed() ==> {
            &&& r is Err
            &&& r->Err_0@ == error_text(ApiError::CredentialFormat)
            &&& after.last_nonce() == self.last_nonce()
            &&& after.transport() == self.transport()
            &&& after.sent() == self.sent()
        }
        &&& self.secret_well_formed() ==> {
            &&& exists|clock: u128| after.last_nonce() == next_nonce(self.last_nonce(), clock)
            &&& {
                ||| after.sent() == self.sent().push(
                    self.private_post(registry, endpoint, whitelist, after.last_nonce()),
                )
                ||| {
                    &&& after.sent() == self.sent()
                    &&& r is Err
                    &&& r->Err_0@ == error_text(ApiError::SigningFailure)
                }
            }
            &&& base64_decoded(self.secret_text()) is None ==> {
                &&& after.sent() == self.sent()
                &&& r is Err
                &&& r->Err_0@ == error_text(ApiError::SigningFailure)
            }
        }
    }

    /// What a public call to `endpoint` with `whitelist` leaves, from this
    /// state with `registry` as the options at the time of the call: one GET
    /// request sent, and nothing else changed but the transport.
    pub open spec fn public_outcome(
        self,
        registry: Map<u64, Seq<char>>,
        endpoint: Seq<char>,
        whitelist: Seq<API_Option>,
        after: Self,
        r: Result<String, String>,
    ) -> bool {
        &&& after.key_text() == self.key_text()
        &&& after.secret_text() == self.secret_text()
        &&& after.registry() == registry
        &&& after.last_nonce() == self.last_nonce()
        &&& after.sent() == self.sent().push(
            SentRequest::Get { url: public_url_of(endpoint, query_of(registry, whitelist)) },
        )
    }
}

impl<T: Transport> Kraken_API<T> {
    /// Issues the next nonce: the clock's reading in microseconds where it is
    /// ahead of the last nonce, else one more than the last nonce.
    pub fn issue_nonce(&mut self) -> (r: u128)
        ensures
            exists|clock: u128| r == next_nonce(old(self).last_nonce(), clock),
            old(self).last_nonce() < u128::MAX ==> r > old(self).last_nonce(),
            final(self).last_nonce() == r,
            final(self).key_text() == old(self).key_text(),
            final(self).secret_text() == old(self).secret_text(),
            final(self).registry() == old(self).registry(),
            final(self).transport() == old(self).transport(),
            final(self).sent() == old(self).sent(),
    {
        let clock = clock_micros();
        let n = nonce_after(self.last_nonce, clock);
        assert(n == next_nonce(self.last_nonce(), clock));
        self.last_nonce = n;
        n
    }

    /// Sends a GET request to a public end-point with this whitelist, and
    /// returns the body of the answer.
    pub fn public_call(&mut self, endpoint: &str, whitelist: &[API_Option]) -> (r: Result<
        String,
        ApiError,
    >)
        ensures
            final(self).key_text() == old(self).key_text(),
            final(self).secret_text() == old(self).secret_text(),
            final(self).registry() == old(self).registry(),
            final(self).last_nonce() == old(self).last_nonce(),
            final(self).sent() == old(self).sent().push(
                SentRequest::Get {
                    url: public_url_of(endpoint@, query_of(old(self).registry(), whitelist@)),
                },
            ),
            r matches Err(e) ==> e is Transport,
    {
        let url = self.public_url(endpoint, whitelist);
        self.sent = Ghost(self.sent@.push(SentRequest::Get { url: url@ }));
        match self.transport.get(url.as_str()) {
            Ok(body) => Ok(body),
            Err(m) => Err(ApiError::Transport(m)),
        }
    }

    /// Sends a signed POST request to a private end-point with this whitelist,
    /// under a fresh nonce, and returns the body of the answer. A secret that
    /// does not have 88 bytes is refused before anything else happens.
    pub fn private_call(&mut self, endpoint: &str, whitelist: &[API_Option]) -> (r: Result<
        String,
        ApiError,
    >)
        ensures
            final(self).key_text() == old(self).key_text(),
            final(self).secret_text() == old(self).secret_text(),
            final(self).registry() == old(self).registry(),
            !old(self).secret_well_formed() ==> {
                &&& r == Err::<String, ApiError>(ApiError::CredentialFormat)
                &&& final(self).last_nonce() == old(self).last_nonce()
                &&& final(self).transport() == old(self).transport()
                &&& final(self).sent() == old(self).sent()
            },
            old(self).secret_well_formed() ==> exists|clock: u128|
                final(self).last_nonce() == next_nonce(old(self).last_nonce(), clock),
            old(self).secret_well_formed() ==> {
                ||| {
                    &&& final(self).sent() == old(self).sent().push(
                        old(self).private_post(
                            old(self).registry(),
                            endpoint@,
                            whitelist@,
                            final(self).last_nonce(),
                        ),
                    )
                    &&& r matches Err(e) ==> e is Transport
                }
                ||| final(self).sent() == old(self).sent() && r == Err::<String, ApiError>(
                    ApiError::SigningFailure,
                )
            },
            old(self).secret_well_formed() && base64_decoded(old(self).secret_text()) is None ==> {
                &&& final(self).sent() == old(self).sent()
                &&& r == Err::<String, ApiError>(ApiError::SigningFailure)
            },
            r matches Err(e) ==> (e == ApiError::CredentialFormat
                <==> !old(self).secret_well_formed()),
            r matches Err(e) ==> e == ApiError::CredentialFormat || e == ApiError::SigningFailure
                || e is Transport,
    {
        if self.secret.as_str().as_bytes().len() != SECRET_LEN {
            return Err(ApiError::CredentialFormat);
        }
        let nonce = self.issue_nonce();
        let request = match self.private_request(endpoint, whitelist, nonce) {
            Ok(q) => q,
            Err(e) => {
                return Err(e);
            },
        };
        self.sent = Ghost(
            self.sent@.push(
                SentRequest::Post {
                    url: request.url@,
                    api_key: request.api_key@,
                    api_sign: request.api_sign@,
                    body: request.body@,
                },
            ),
        );
        match self.transport.post(
            request.url.as_str(),
            request.api_key.as_str(),
            request.api_sign.as_str(),
            request.body.as_str(),
        ) {
            Ok(body) => Ok(body),
            Err(m) => Err(ApiError::Transport(m)),
        }
    }

    fn call_private(&mut self, endpoint: &str, whitelist: &[API_Option]) -> (r: Result<
        String,
        String,
    >)
        ensures
            old(self).private_outcome(
                old(self).registry(),
                endpoint@,
                whitelist@,
                *final(self),
                r,
            ),
    {
        match self.private_call(endpoint, whitelist) {
            Ok(body) => Ok(body),
            Err(e) => Err(e.message()),
        }
    }

    fn call_public(&mut self, endpoint: &str, whitelist: &[API_Option]) -> (r: Result<
        String,
        String,
    >)
        ensures
            old(self).public_outcome(
                old(self).registry(),
                endpoint@,
                whitelist@,
                *final(self),
                r,
            ),
    {
        match self.public_call(endpoint, whitelist) {
            Ok(body) => Ok(body),
            Err(e) => Err(e.message()),
        }
    }

    /// Retrieves all cash balances.
    pub fn account_balance(&mut self) -> (r: Result<String, String>)
        ensures
            old(self).private_outcome(old(self).registry(), "Balance"@, seq![], *final(self), r),
    {
        self.call_private("Balance", &[])
    }

    /// Gets a summary of standing with an asset. Accepts `ASSET`.
    pub fn trade_balance(&mut self) -> (r: Result<String, String>)
        ensures
            old(self).private_outcome(
                old(self).registry(),
                "TradeBalance"@,
                seq![API_Option::ASSET],
                *final(self),
                r,
            ),
    {
        let whitelist = [API_Option::ASSET];
        assert(whitelist@ =~= seq![API_Option::ASSET]);
        self.call_private("TradeBalance", &whitelist)
    }

    /// Gets the orders open now. Accepts `TRADES` and `USERREF`.
    pub fn open_orders(&mut self) -> (r: Result<String, String>)
        ensures
            old(self).private_outcome(
                old(self).registry(),
                "OpenOrders"@,
                seq![API_Option::TRADES, API_Option::USERREF],
                *final(self),
                r,
            ),
    {
        self.call_private("OpenOrders", &[API_Option::TRADES, API_Option::USERREF])
    }

    /// Gets closed orders, 50 at a time. Accepts `TRADES`, `USERREF`, `START`,
    /// `END`, `OFS` and `CLOSE_TIME`.
    pub fn closed_orders(&mut self) -> (r: Result<String, String>)
        ensures
            old(self).private_outcome(
                old(self).registry(),
                "ClosedOrders"@,
                seq![
                    API_Option::TRADES,
                    API_Option::USERREF,
                    API_Option::START,
                    API_Option::END,
                    API_Option::OFS,
                    API_Option::CLOSE_TIME,
                ],
                *final(self),
                r,
            ),
    {
        self.call_private(
            "ClosedOrders",
            &[
                API_Option::TRADES,
                API_Option::USERREF,
                API_Option::START,
                API_Option::END,
                API_Option::OFS,
                API_Option::CLOSE_TIME,
            ],
        )
    }

    /// Gets the details of orders: `txid` is one transaction ID or a
    /// comma-separated list, and is kept as the `TXID` option. Accepts `TRADES`
    /// and `USERREF`.
    pub fn query_orders(&mut self, txid: String) -> (r: Result<String, String>)
        ensures
            old(self).private_outcome(
                old(self).registry().insert(option_code(API_Option::TXID), txid@),
                "QueryOrders"@,
                seq![API_Option::TXID, API_Option::TRADES, API_Option::USERREF],
                *final(self),
                r,
            ),
    {
        self.set_text(API_Option::TXID, txid.as_str());
        self.call_private(
            "QueryOrders",
            &[API_Option::TXID, API_Option::TRADES, API_Option::USERREF],
        )
    }

    /// Gets past trades, 50 at a time. Accepts `TYPE`, `TRADES`, `START`,
    /// `END` and `OFS`.
    pub fn trades_history(&mut self) -> (r: Result<String, String>)
        ensures
            old(self).private_outcome(
                old(self).registry(),
                "TradesHistory"@,
                seq![
                    API_Option::TYPE,
                    API_Option::TRADES,
                    API_Option::START,
                    API_Option::END,
                    API_Option::OFS,
                ],
                *final(self),
                r,
            ),
    {
        self.call_private(
            "TradesHistory",
            &[
                API_Option::TYPE,
                API_Option::TRADES,
                API_Option::START,
                API_Option::END,
                API_Option::OFS,
            ],
        )
    }

    /// Gets information about specific trades: `txid` is kept as the `TXID`
    /// option. Accepts `TRADES`.
    pub fn trades_info(&mut self, txid: String) -> (r: Result<String, String>)
        ensures
            old(self).private_outcome(
                old(self).registry().insert(option_code(API_Option::TXID), txid@),
                "QueryTrades"@,
                seq![API_Option::TXID, API_Option::TRADES],
                *final(self),
                r,
            ),
    {
        self.set_text(API_Option::TXID, txid.as_str());
        self.call_private("QueryTrades", &[API_Option::TXID, API_Option::TRADES])
    }

    /// Gets the open margin positions. Accepts `TXID`, `DO_CALCS` and
    /// `CONSOLIDATION`.
    pub fn open_margin_positions(&mut self) -> (r: Result<String, String>)
        ensures
            old(self).private_outcome(
                old(self).registry(),
                "OpenPositions"@,
                seq![API_Option::TXID, API_Option::DO_CALCS, API_Option::CONSOLIDATION],
                *final(self),
                r,
            ),
    {
        self.call_private(
            "OpenPositions",
            &[
                API_Option::TXID,
                API_Option::DO_CALCS,
                API_Option::CONSOLIDATION,
            ],
        )
    }

    /// Gets ledger entries. Accepts `ACLASS`, `ASSET`, `TYPE`, `START`, `END`
    /// and `OFS`.
    pub fn ledgers_info(&mut self) -> (r: Result<String, String>)
        ensures
            old(self).private_outcome(
                old(self).registry(),
                "Ledgers"@,
                seq![
                    API_Option::ACLASS,
                    API_Option::ASSET,
                    API_Option::TYPE,
                    API_Option::START,
                    API_Option::END,
                    API_Option::OFS,
                ],
                *final(self),
                r,
            ),
    {
        self.call_private(
            "Ledgers",
            &[
                API_Option::ACLASS,
                API_Option::ASSET,
                API_Option::TYPE,
                API_Option::START,
                API_Option::END,
                API_Option::OFS,
            ],
        )
    }

    /// Gets specific ledger entries. Accepts `ID` and `TRADES`.
    pub fn query_ledgers(&mut self) -> (r: Result<String, String>)
        ensures
            old(self).private_outcome(
                old(self).registry(),
                "QueryLedgers"@,
                seq![API_Option::ID, API_Option::TRADES],
                *final(self),
                r,
            ),
    {
        self.call_private("QueryLedgers", &[API_Option::ID, API_Option::TRADES])
    }

    /// Gets the trade volume for a pair, which is kept as the `PAIR` option.
    /// Accepts `FEE_INFO`.
    pub fn trade_volume(&mut self, pair: &str) -> (r: Result<String, String>)
        ensures
            old(self).private_outcome(
                old(self).registry().insert(option_code(API_Option::PAIR), pair@),
                "TradeVolume"@,
                seq![API_Option::PAIR, API_Option::FEE_INFO],
                *final(self),
                r,
            ),
    {
        self.set_text(API_Option::PAIR, pair);
        self.call_private("TradeVolume", &[API_Option::PAIR, API_Option::FEE_INFO])
    }

    /// Requests an export of trades or ledgers; the kind and the description
    /// are kept as the `REPORT` and `DESCRIPTION` options. Accepts `FORMAT`,
    /// `FIELDS`, `START_TIME` and `END_TIME`.
    pub fn request_export_report(&mut self, report_type: Report_Type, description: &str) -> (r:
        Result<String, String>)
        ensures
            old(self).private_outcome(
                old(self).registry().insert(
                    option_code(API_Option::REPORT),
                    report_type_text(report_type),
                ).insert(option_code(API_Option::DESCRIPTION), description@),
                "AddExport"@,
                seq![
                    API_Option::REPORT,
                    API_Option::FORMAT,
                    API_Option::DESCRIPTION,
                    API_Option::FIELDS,
                    API_Option::START_TIME,
                    API_Option::END_TIME,
                ],
                *final(self),
                r,
            ),
    {
        self.set_text(API_Option::REPORT, report_type.as_kraken_string());
        self.set_text(API_Option::DESCRIPTION, description);
        self.call_private(
            "AddExport",
            &[
                API_Option::REPORT,
                API_Option::FORMAT,
                API_Option::DESCRIPTION,
                API_Option::FIELDS,
                API_Option::START_TIME,
                API_Option::END_TIME,
            ],
        )
    }

    /// Gets the status of requested exports of a kind, which is kept as the
    /// `REPORT` option.
    pub fn get_export_report_status(&mut self, report_type: Report_Type) -> (r: Result<
        String,
        String,
    >)
        ensures
            old(self).private_outcome(
                old(self).registry().insert(
                    option_code(API_Option::REPORT),
                    report_type_text(report_type),
                ),
                "ExportStatus"@,
                seq![API_Option::REPORT],
                *final(self),
                r,
            ),
    {
        self.set_text(API_Option::REPORT, report_type.as_kraken_string());
        let whitelist = [API_Option::REPORT];
        assert(whitelist@ =~= seq![API_Option::REPORT]);
        self.call_private("ExportStatus", &whitelist)
    }

    /// Retrieves a processed export; `id` is kept as the `ID` option.
    pub fn retrieve_data_export(&mut self, id: &str) -> (r: Result<String, String>)
        ensures
            old(self).private_outcome(
                old(self).registry().insert(option_code(API_Option::ID), id@),
                "RetrieveExport"@,
                seq![API_Option::ID],
                *final(self),
                r,
            ),
    {
        self.set_text(API_Option::ID, id);
        let whitelist = [API_Option::ID];
        assert(whitelist@ =~= seq![API_Option::ID]);
        self.call_private("RetrieveExport", &whitelist)
    }

    /// Cancels an open order, or all those of a user reference; `txid` is
    /// kept as the `TXID` option.
    pub fn cancel_order(&mut self, txid: &str) -> (r: Result<String, String>)
        ensures
            old(self).private_outcome(
                old(self).registry().insert(option_code(API_Option::TXID), txid@),
                "CancelOrder"@,
                seq![API_Option::TXID],
                *final(self),
                r,
            ),
    {
        self.set_text(API_Option::TXID, txid);
        let whitelist = [API_Option::TXID];
        assert(whitelist@ =~= seq![API_Option::TXID]);
        self.call_private("CancelOrder", &whitelist)
    }

    /// Cancels every order open on the account.
    pub fn cancel_all_orders(&mut self) -> (r: Result<String, String>)
        ensures
            old(self).private_outcome(old(self).registry(), "CancelAll"@, seq![], *final(self), r),
    {
        self.call_private("CancelAll", &[])
    }

    /// Gets the exchange's time.
    pub fn server_time(&mut self) -> (r: Result<String, String>)
        ensures
            old(self).public_outcome(old(self).registry(), "Time"@, seq![], *final(self), r),
    {
        self.call_public("Time", &[])
    }

    /// Gets the exchange's current system status.
    pub fn system_status(&mut self) -> (r: Result<String, String>)
        ensures
            old(self).public_outcome(
                old(self).registry(),
                "SystemStatus"@,
                seq![],
                *final(self),
                r,
            ),
    {
        self.call_public("SystemStatus", &[])
    }

    /// Gets information about the assets on offer. Accepts `ACLASS` and `ASSET`.
    pub fn asset_info(&mut self) -> (r: Result<String, String>)
        ensures
            old(self).public_outcome(
                old(self).registry(),
                "Assets"@,
                seq![API_Option::ACLASS, API_Option::ASSET],
                *final(self),
                r,
            ),
    {
        self.call_public("Assets", &[API_Option::ACLASS, API_Option::ASSET])
    }

    /// Gets the tradable asset pairs. Accepts `INFO` and `PAIR`.
    pub fn asset_pairs(&mut self) -> (r: Result<String, String>)
        ensures
            old(self).public_outcome(
                old(self).registry(),
                "AssetPairs"@,
                seq![API_Option::INFO, API_Option::PAIR],
                *final(self),
                r,
            ),
    {
        self.call_public("AssetPairs", &[API_Option::INFO, API_Option::PAIR])
    }

    /// Gets ticker information for a pair, which is kept as the `PAIR` option.
    pub fn ticker_info(&mut self, pair: String) -> (r: Result<String, String>)
        ensures
            old(self).public_outcome(
                old(self).registry().insert(option_code(API_Option::PAIR), pair@),
                "Ticker"@,
                seq![API_Option::PAIR],
                *final(self),
                r,
            ),
    {
        self.set_text(API_Option::PAIR, pair.as_str());
        let whitelist = [API_Option::PAIR];
        assert(whitelist@ =~= seq![API_Option::PAIR]);
        self.call_public("Ticker", &whitelist)
    }

    /// Gets open, high, low and close data for a pair, which is kept as the
    /// `PAIR` option. Accepts `INTERVAL` and `SINCE`.
    pub fn ohlc_data(&mut self, pair: String) -> (r: Result<String, String>)
        ensures
            old(self).public_outcome(
                old(self).registry().insert(option_code(API_Option::PAIR), pair@),
                "OHLC"@,
                seq![API_Option::PAIR, API_Option::INTERVAL, API_Option::SINCE],
                *final(self),
                r,
            ),
    {
        self.set_text(API_Option::PAIR, pair.as_str());
        self.call_public("OHLC", &[API_Option::PAIR, API_Option::INTERVAL, API_Option::SINCE])
    }

    /// Gets the order book of a pair, which is kept as the `PAIR` option.
    /// Accepts `COUNT`, which limits its depth.
    pub fn order_book(&mut self, pair: String) -> (r: Result<String, String>)
        ensures
            old(self).public_outcome(
                old(self).registry().insert(option_code(API_Option::PAIR), pair@),
                "Depth"@,
                seq![API_Option::PAIR, API_Option::COUNT],
                *final(self),
                r,
            ),
    {
        self.set_text(API_Option::PAIR, pair.as_str());
        self.call_public("Depth", &[API_Option::PAIR, API_Option::COUNT])
    }

    /// Gets the recent trades of a pair, which is kept as the `PAIR` option.
    /// Accepts `SINCE`.
    pub fn recent_trades(&mut self, pair: String) -> (r: Result<String, String>)
        ensures
            old(self).public_outcome(
                old(self).registry().insert(option_code(API_Option::PAIR), pair@),
                "Trades"@,
                seq![API_Option::PAIR, API_Option::SINCE],
                *final(self),
                r,
            ),
    {
        self.set_text(API_Option::PAIR, pair.as_str());
        self.call_public("Trades", &[API_Option::PAIR, API_Option::SINCE])
    }

    /// Gets the recent spreads of a pair, which is kept as the `PAIR` option.
    /// Accepts `SINCE`.
    pub fn spread_data(&mut self, pair: String) -> (r: Result<String, String>)
        ensures
            old(self).public_outcome(
                old(self).registry().insert(option_code(API_Option::PAIR), pair@),
                "Spread"@,
                seq![API_Option::PAIR, API_Option::SINCE],
                *final(self),
                r,
            ),
    {
        self.set_text(API_Option::PAIR, pair.as_str());
        self.call_public("Spread", &[API_Option::PAIR, API_Option::SINCE])
    }

    /// Deletes or cancels an export report: `type_` must be `"delete"` or
    /// `"cancel"`, else nothing is sent and the answer is an error. `id` and
    /// `type_` are kept as the `ID` and `TYPE` options.
    pub fn delete_export_report(&mut self, id: &str, type_: &str) -> (r: Result<String, String>)
        ensures
            !(type_@ == "delete"@ || type_@ == "cancel"@) ==> {
                &&& r is Err
                &&& r->Err_0@ == error_text(ApiError::InvalidArgument)
                &&& *final(self) == *old(self)
            },
            type_@ == "delete"@ || type_@ == "cancel"@ ==> old(self).private_outcome(
                old(self).registry().insert(option_code(API_Option::ID), id@).insert(
                    option_code(API_Option::TYPE),
                    type_@,
                ),
                "RemoveExport"@,
                seq![API_Option::ID, API_Option::TYPE],
                *final(self),
                r,
            ),
    {
        let kind = String::from_str(type_);
        if !(kind == String::from_str("delete") || kind == String::from_str("cancel")) {
            return Err(ApiError::InvalidArgument.message());
        }
        self.set_text(API_Option::ID, id);
        self.set_text(API_Option::TYPE, type_);
        self.call_private("RemoveExport", &[API_Option::ID, API_Option::TYPE])
    }

    /// Places a new order. The order type, the direction, the volume and the
    /// pair are kept as the `ORDER_TYPE`, `TYPE`, `VOLUME` and `PAIR` options.
    /// Accepts `USERREF`, `PRICE`, `PRICE_2`, `TRIGGER`, `LEVERAGE`, `OFLAGS`,
    /// `TIME_IN_FORCE`, `START_TIME`, `EXPIRE_TIME`, `CLOSE_TYPE`,
    /// `CLOSE_PRICE_1`, `CLOSE_PRICE_2`, `DEADLINE` and `VALIDATE`.
    pub fn add_order<V: std::fmt::Display>(
        &mut self,
        order_type: Order_Type,
        direction: Instruction,
        volume: V,
        pair: &str,
    ) -> (r: Result<String, String>)
        ensures
            exists|s: String|
                vstd::string::to_string_from_display_ensures::<V>(&volume, s)
                    && old(self).private_outcome(
                    old(self).registry().insert(
                        option_code(API_Option::ORDER_TYPE),
                        order_type_text(order_type),
                    ).insert(option_code(API_Option::TYPE), instruction_text(direction)).insert(
                        option_code(API_Option::VOLUME),
                        s@,
                    ).insert(option_code(API_Option::PAIR), pair@),
                    "AddOrder"@,
                    seq![
                        API_Option::ORDER_TYPE,
                        API_Option::TYPE,
                        API_Option::VOLUME,
                        API_Option::PAIR,
                        API_Option::USERREF,
                        API_Option::PRICE,
                        API_Option::PRICE_2,
                        API_Option::TRIGGER,
                        API_Option::LEVERAGE,
                        API_Option::OFLAGS,
                        API_Option::TIME_IN_FORCE,
                        API_Option::START_TIME,
                        API_Option::EXPIRE_TIME,
                        API_Option::CLOSE_TYPE,
                        API_Option::CLOSE_PRICE_1,
                        API_Option::CLOSE_PRICE_2,
                        API_Option::DEADLINE,
                        API_Option::VALIDATE,
                    ],
                    *final(self),
                    r,
                ),
    {
        self.set_text(API_Option::ORDER_TYPE, order_type.as_kraken_string());
        self.set_text(API_Option::TYPE, direction.as_kraken_string());
        let ghost before = self.registry();
        self.set_opt(API_Option::VOLUME, volume);
        let ghost s = choose|s: String|
            vstd::string::to_string_from_display_ensures::<V>(&volume, s) && self.registry()
                == before.insert(option_code(API_Option::VOLUME), s@);
        self.set_text(API_Option::PAIR, pair);
        let r = self.call_private(
            "AddOrder",
            &[
                API_Option::ORDER_TYPE,
                API_Option::TYPE,
                API_Option::VOLUME,
                API_Option::PAIR,
                API_Option::USERREF,
                API_Option::PRICE,
                API_Option::PRICE_2,
                API_Option::TRIGGER,
                API_Option::LEVERAGE,
                API_Option::OFLAGS,
                API_Option::TIME_IN_FORCE,
                API_Option::START_TIME,
                API_Option::EXPIRE_TIME,
                API_Option::CLOSE_TYPE,
                API_Option::CLOSE_PRICE_1,
                API_Option::CLOSE_PRICE_2,
                API_Option::DEADLINE,
                API_Option::VALIDATE,
            ],
        );
        assert(vstd::string::to_string_from_display_ensures::<V>(&volume, s));
        r
    }

    /// Edits an order on the book; `tx_id` and `pair` are kept as the `TXID`
    /// and `PAIR` options. Accepts `ORDER_TYPE`, `VOLUME`, `USERREF`, `PRICE`,
    /// `PRICE_2`, `OFLAGS`, `DEADLINE`, `VALIDATE` and `CANCEL_RESPONSE`.
    pub fn edit_order<V: std::fmt::Display>(&mut self, tx_id: &str, pair: &str) -> (r: Result<
        String,
        String,
    >)
        ensures
            old(self).private_outcome(
                old(self).registry().insert(option_code(API_Option::TXID), tx_id@).insert(
                    option_code(API_Option::PAIR),
                    pair@,
                ),
                "EditOrder"@,
                seq![
                    API_Option::ORDER_TYPE,
                    API_Option::VOLUME,
                    API_Option::PAIR,
                    API_Option::USERREF,
                    API_Option::PRICE,
                    API_Option::PRICE_2,
                    API_Option::OFLAGS,
                    API_Option::DEADLINE,
                    API_Option::VALIDATE,
                    API_Option::TXID,
                    API_Option::CANCEL_RESPONSE,
                ],
                *final(self),
                r,
            ),
    {
        self.set_text(API_Option::TXID, tx_id);
        self.set_text(API_Option::PAIR, pair);
        self.call_private(
            "EditOrder",
            &[
                API_Option::ORDER_TYPE,
                API_Option::VOLUME,
                API_Option::PAIR,
                API_Option::USERREF,
                API_Option::PRICE,
                API_Option::PRICE_2,
                API_Option::OFLAGS,
                API_Option::DEADLINE,
                API_Option::VALIDATE,
                API_Option::TXID,
                API_Option::CANCEL_RESPONSE,
            ],
        )
    }

    /// Arms the dead man's switch: every order is cancelled after `timeout`
    /// seconds unless the switch is armed again; zero disarms it. The timeout
    /// is kept as the `TIMEOUT` option.
    pub fn cancel_all_orders_after_x(&mut self, timeout: isize) -> (r: Result<String, String>)
        ensures
            old(self).private_outcome(
                old(self).registry().insert(
                    option_code(API_Option::TIMEOUT),
                    signed_decimal(timeout as int),
                ),
                "CancelAllOrdersAfter"@, seq![API_Option::TIMEOUT], *final(self),
                r,
            ),
    {
        let text = signed_decimal_text(timeout);
        self.set_text(API_Option::TIMEOUT, text.as_str());
        let whitelist = [API_Option::TIMEOUT];
        assert(whitelist@ =~= seq![API_Option::TIMEOUT]);
        self.call_private("CancelAllOrdersAfter", &whitelist)
    }
}

} // verus!
