//! The payment gate in front of the upstream service: route matching, the
//! price and deposit a route asks for, the receipt headers attached to paid
//! requests, and what is forwarded upstream.
use vstd::prelude::*;
use vstd::utf8::encode_utf8;
use crate::address::Address;
use crate::amount::{amount_from_display, amount_reaches_scale, TokenAmount};
use crate::config::{ProtocolsConfig, RouteEntry, RouteMode, WebhooksConfig};
use crate::error::PaymentError;
use crate::mpp::MppSessionCredential;
use crate::text::{chars_of, eq_ignore_ascii_case, eq_ignore_ascii_case_spec, str_eq, text};
use crate::types::{protocol_name, PaymentReceipt, ProtocolKind};

verus! {

pub const X_TOLLBOOTH_VERIFIED: &'static str = "x-tollbooth-verified";
pub const X_TOLLBOOTH_AMOUNT: &'static str = "x-tollbooth-amount";
pub const X_TOLLBOOTH_UI_AMOUNT: &'static str = "x-tollbooth-ui-amount";
pub const X_TOLLBOOTH_PAYER: &'static str = "x-tollbooth-payer";
pub const X_TOLLBOOTH_PROTOCOL: &'static str = "x-tollbooth-protocol";
pub const X_TOLLBOOTH_SIGNATURE: &'static str = "x-tollbooth-signature";
pub const X_PAYMENT_PROTOCOL: &'static str = "x-payment-protocol";
pub const X_PAYMENT_SIGNATURE: &'static str = "x-payment-signature";
pub const X_TOLLBOOTH_EVENT: &'static str = "x-tollbooth-event";
pub const X_PAYMENT_CREDENTIAL: &'static str = "x-payment-credential";
pub const X_TOLLBOOTH_SESSION_ID: &'static str = "x-tollbooth-session-id";

/// Whether a route entry applies to a request: its method filter (if any)
/// equals the method up to ASCII case, and its path equals the request path or
/// ends in `*` and the request path starts with what precedes the `*`.
pub open spec fn route_applies(r: RouteEntry, path: Seq<char>, method: Seq<char>) -> bool {
    &&& match r.method {
        Some(m) => eq_ignore_ascii_case_spec(m@, method),
        None => true,
    }
    &&& (r.path@ == path || (r.path@.len() > 0 && r.path@.last() == '*' && path.len() >= r.path@.len() - 1
        && path.subrange(0, r.path@.len() - 1) == r.path@.drop_last()))
}

/// The position of the first route entry that applies, if any.
pub open spec fn first_applicable_route(routes: Seq<RouteEntry>, path: Seq<char>, method: Seq<char>) -> Option<int>
    decreases routes.len(),
{
    if routes.len() == 0 {
        None
    } else if route_applies(routes[0], path, method) {
        Some(0)
    } else {
        match first_applicable_route(routes.drop_first(), path, method) {
            Some(i) => Some(i + 1),
            None => None,
        }
    }
}

/// The first applicable route lies within the sequence.
pub proof fn lemma_first_applicable_route_bounds(routes: Seq<RouteEntry>, path: Seq<char>, method: Seq<char>)
    ensures
        first_applicable_route(routes, path, method) matches Some(i) ==> 0 <= i < routes.len(),
    decreases routes.len(),
{
    if routes.len() > 0 {
        lemma_first_applicable_route_bounds(routes.drop_first(), path, method);
    }
}

/// When no route has a method filter, which route a path matches does not
/// depend on the request method.
pub proof fn law_unfiltered_routes_ignore_method(
    routes: Seq<RouteEntry>,
    path: Seq<char>,
    m1: Seq<char>,
    m2: Seq<char>,
)
    requires
        forall|i: int| 0 <= i < routes.len() ==> (#[trigger] routes[i]).method is None,
    ensures
        first_applicable_route(routes, path, m1) == first_applicable_route(routes, path, m2),
    decreases routes.len(),
{
    if routes.len() > 0 {
        let rest = routes.drop_first();
        assert forall|i: int| 0 <= i < rest.len() implies (#[trigger] rest[i]).method is None by {
            assert(rest[i] == routes[i + 1]);
        }
        law_unfiltered_routes_ignore_method(rest, path, m1, m2);
        assert(routes[0].method is None);
    }
}

/// Whether the route entry applies to the request.
fn route_applies_exec(r: &RouteEntry, path: &str, method: &str) -> (b: bool)
    ensures
        b == route_applies(*r, path@, method@),
{
    match &r.method {
        Some(m) => {
            if !eq_ignore_ascii_case(m.as_str(), method) {
                return false;
            }
        },
        None => {},
    }
    if str_eq(r.path.as_str(), path) {
        return true;
    }
    let rp = chars_of(r.path.as_str());
    let pv = chars_of(path);
    let n = rp.len();
    if n == 0 || rp[n - 1] != '*' {
        return false;
    }
    let k = n - 1;
    if pv.len() < k {
        return false;
    }
    let mut i: usize = 0;
    while i < k
        invariant
            i <= k,
            k == rp@.len() - 1,
            k <= pv@.len(),
            rp@ == r.path@,
            pv@ == path@,
            forall|j: int| 0 <= j < i ==> pv@[j] == rp@[j],
        decreases k - i,
    {
        if pv[i] != rp[i] {
            assert(path@.subrange(0, k as int)[i as int] != r.path@.drop_last()[i as int]);
            return false;
        }
        i = i + 1;
    }
    assert(path@.subrange(0, k as int) =~= r.path@.drop_last());
    true
}

/// Matches a request path and method against the configured routes.
/// Supports exact paths and a wildcard suffix (`/api/data/*` matches
/// `/api/data/anything`); the first entry that applies wins.
pub fn match_route<'a>(path: &str, method: &str, routes: &'a [RouteEntry]) -> (r: Option<&'a RouteEntry>)
    ensures
        match first_applicable_route(routes@, path@, method@) {
            Some(i) => r == Some(&routes@[i]),
            None => r is None,
        },
{
    let mut i: usize = 0;
    assert(routes@.skip(0) =~= routes@);
    proof {
        lemma_first_applicable_route_bounds(routes@, path@, method@);
    }
    while i < routes.len()
        invariant
            i <= routes@.len(),
            match first_applicable_route(routes@, path@, method@) {
                Some(j) => j >= i && first_applicable_route(routes@.skip(i as int), path@, method@) == Some(
                    j - i,
                ),
                None => first_applicable_route(routes@.skip(i as int), path@, method@) is None,
            },
        decreases routes.len() - i,
    {
        assert(routes@.skip(i as int).drop_first() =~= routes@.skip(i + 1));
        assert(routes@.skip(i as int)[0] == routes@[i as int]);
        proof {
            lemma_first_applicable_route_bounds(routes@.skip(i + 1), path@, method@);
        }
        if route_applies_exec(&routes[i], path, method) {
            return Some(&routes[i]);
        }
        i = i + 1;
    }
    None
}

/// Whether `HeaderValue::from_str` accepts a text: every byte of its UTF-8
/// encoding is a tab or at least 32 and not 127.
pub open spec fn header_value_ok(s: Seq<char>) -> bool {
    let b = encode_utf8(s);
    forall|i: int| 0 <= i < b.len() ==> (#[trigger] b[i] >= 32 && b[i] != 127) || b[i] == 9
}

/// Appends a header when its value is acceptable.
pub open spec fn keep_header(acc: Seq<(Seq<char>, Seq<char>)>, name: Seq<char>, value: Seq<char>) -> Seq<
    (Seq<char>, Seq<char>),
> {
    if header_value_ok(value) {
        acc.push((name, value))
    } else {
        acc
    }
}

/// The headers attached to a paid request, in order: verified flag, raw and
/// display amounts, payer, protocol, signature, then the event type and the
/// session id when present; each one only if its value is acceptable.
pub open spec fn receipt_headers_spec(receipt: PaymentReceipt, event: Option<Seq<char>>) -> Seq<(Seq<char>, Seq<char>)> {
    let a = keep_header(Seq::empty(), X_TOLLBOOTH_VERIFIED@, "true"@);
    let b = keep_header(a, X_TOLLBOOTH_AMOUNT@, receipt.amount@);
    let c = keep_header(b, X_TOLLBOOTH_UI_AMOUNT@, receipt.ui_amount@);
    let d = keep_header(c, X_TOLLBOOTH_PAYER@, receipt.payer@);
    let e = keep_header(d, X_TOLLBOOTH_PROTOCOL@, protocol_name(receipt.protocol));
    let f = keep_header(e, X_TOLLBOOTH_SIGNATURE@, receipt.signature@);
    let g = match event {
        Some(ev) => keep_header(f, X_TOLLBOOTH_EVENT@, ev),
        None => f,
    };
    match receipt.session_id {
        Some(sid) => keep_header(g, X_TOLLBOOTH_SESSION_ID@, sid@),
        None => g,
    }
}

/// The values of each header in a header map, by lower-case name, in order.
pub uninterp spec fn header_entries(map: axum::http::HeaderMap) -> Map<Seq<char>, Seq<Seq<u8>>>;

/// The header names the gateway writes.
pub open spec fn known_header(name: Seq<char>) -> bool {
    name == X_TOLLBOOTH_VERIFIED@ || name == X_TOLLBOOTH_AMOUNT@ || name == X_TOLLBOOTH_UI_AMOUNT@ || name
        == X_TOLLBOOTH_PAYER@ || name == X_TOLLBOOTH_PROTOCOL@ || name == X_TOLLBOOTH_SIGNATURE@ || name
        == X_PAYMENT_PROTOCOL@ || name == X_PAYMENT_SIGNATURE@ || name == X_TOLLBOOTH_EVENT@ || name
        == X_PAYMENT_CREDENTIAL@ || name == X_TOLLBOOTH_SESSION_ID@
}

/// The header entries after setting `name` to `value`, when the value is
/// acceptable: the value replaces every earlier value of the name.
pub open spec fn set_if_ok(m: Map<Seq<char>, Seq<Seq<u8>>>, name: Seq<char>, value: Seq<char>) -> Map<
    Seq<char>,
    Seq<Seq<u8>>,
> {
    if header_value_ok(value) {
        m.insert(name, seq![encode_utf8(value)])
    } else {
        m
    }
}

/// The header entries after setting each header of `hs`, in order.
pub open spec fn apply_headers(m: Map<Seq<char>, Seq<Seq<u8>>>, hs: Seq<(Seq<char>, Seq<char>)>) -> Map<
    Seq<char>,
    Seq<Seq<u8>>,
>
    decreases hs.len(),
{
    if hs.len() == 0 {
        m
    } else {
        apply_headers(m, hs.drop_last()).insert(hs.last().0, seq![encode_utf8(hs.last().1)])
    }
}

/// Header entries with fewer than 6553 names, leaving room for `extra` more
/// below that bound.
pub open spec fn header_room(m: Map<Seq<char>, Seq<Seq<u8>>>, extra: nat) -> bool {
    m.dom().finite() && m.dom().len() + extra < 6553
}

/// Sets a header to a text value, replacing its earlier values; a value that
/// is not an acceptable header value is left out.
///
/// Trusted: `HeaderName::from_static` accepts the gateway's lower-case header
/// names; `HeaderValue::from_str` accepts exactly the texts that
/// `header_value_ok` describes and keeps their UTF-8 bytes; `HeaderMap::insert`
/// replaces every value of the name with the new one. `insert` panics when the
/// map cannot grow (its table is capped at 32768 slots, and a map may grow
/// before every insert once it holds a fifth of its slots); with fewer than
/// 6553 names it never reaches that cap, which `requires` asks.
#[verifier::external_body]
fn set_header(map: &mut axum::http::HeaderMap, name: &'static str, value: &str)
    requires
        known_header(name@),
        header_room(header_entries(*old(map)), 0),
    ensures
        header_entries(*final(map)) == set_if_ok(header_entries(*old(map)), name@, value@),
{
    if let Ok(v) = axum::http::HeaderValue::from_str(value) {
        map.insert(axum::http::HeaderName::from_static(name), v);
    }
}

/// Header entries with no header.
pub open spec fn no_headers() -> Map<Seq<char>, Seq<Seq<u8>>> {
    Map::empty()
}

/// A header map with no headers.
///
/// Trusted: `HeaderMap::new` returns an empty map (it allocates nothing).
#[verifier::external_body]
fn new_header_map() -> (r: axum::http::HeaderMap)
    ensures
        header_entries(r) == no_headers(),
{
    axum::http::HeaderMap::new()
}

/// Header entries with exactly `n` names.
pub open spec fn names_counted(m: Map<Seq<char>, Seq<Seq<u8>>>, n: nat) -> bool {
    m.dom().finite() && m.dom().len() == n
}

/// The number of distinct header names in a map.
///
/// Trusted: `HeaderMap::keys_len` returns the number of its entries, one per
/// distinct (lower-case) name, however many values each has.
#[verifier::external_body]
fn header_count(map: &axum::http::HeaderMap) -> (r: usize)
    ensures
        names_counted(header_entries(*map), r as nat),
{
    map.keys_len()
}

proof fn lemma_apply_keep(
    m: Map<Seq<char>, Seq<Seq<u8>>>,
    acc: Seq<(Seq<char>, Seq<char>)>,
    name: Seq<char>,
    value: Seq<char>,
)
    ensures
        apply_headers(m, keep_header(acc, name, value)) == set_if_ok(apply_headers(m, acc), name, value),
{
    if header_value_ok(value) {
        assert(acc.push((name, value)).drop_last() =~= acc);
    }
}

/// Sets the headers that tell the upstream service a request was paid, with
/// an optional event type: the headers of `receipt_headers_spec`, in order.
pub fn inject_receipt_headers_with_event(
    headers: &mut axum::http::HeaderMap,
    receipt: &PaymentReceipt,
    event_type: Option<&str>,
)
    requires
        header_room(header_entries(*old(headers)), 8),
    ensures
        header_entries(*final(headers)) == apply_headers(
            header_entries(*old(headers)),
            receipt_headers_spec(
                *receipt,
                match event_type {
                    Some(e) => Some(e@),
                    None => None,
                },
            ),
        ),
{
    let ghost m = header_entries(*headers);
    let ghost e: Seq<(Seq<char>, Seq<char>)> = Seq::empty();
    let ghost a = keep_header(e, X_TOLLBOOTH_VERIFIED@, "true"@);
    let ghost b = keep_header(a, X_TOLLBOOTH_AMOUNT@, receipt.amount@);
    let ghost c = keep_header(b, X_TOLLBOOTH_UI_AMOUNT@, receipt.ui_amount@);
    let ghost d = keep_header(c, X_TOLLBOOTH_PAYER@, receipt.payer@);
    let ghost f = keep_header(d, X_TOLLBOOTH_PROTOCOL@, protocol_name(receipt.protocol));
    let ghost g = keep_header(f, X_TOLLBOOTH_SIGNATURE@, receipt.signature@);
    proof {
        lemma_apply_keep(m, e, X_TOLLBOOTH_VERIFIED@, "true"@);
        lemma_apply_keep(m, a, X_TOLLBOOTH_AMOUNT@, receipt.amount@);
        lemma_apply_keep(m, b, X_TOLLBOOTH_UI_AMOUNT@, receipt.ui_amount@);
        lemma_apply_keep(m, c, X_TOLLBOOTH_PAYER@, receipt.payer@);
        lemma_apply_keep(m, d, X_TOLLBOOTH_PROTOCOL@, protocol_name(receipt.protocol));
        lemma_apply_keep(m, f, X_TOLLBOOTH_SIGNATURE@, receipt.signature@);
    }
    let verified = text("true");
    set_header(headers, X_TOLLBOOTH_VERIFIED, verified.as_str());
    set_header(headers, X_TOLLBOOTH_AMOUNT, receipt.amount.as_str());
    set_header(headers, X_TOLLBOOTH_UI_AMOUNT, receipt.ui_amount.as_str());
    set_header(headers, X_TOLLBOOTH_PAYER, receipt.payer.as_str());
    let protocol = receipt.protocol.name();
    set_header(headers, X_TOLLBOOTH_PROTOCOL, protocol.as_str());
    set_header(headers, X_TOLLBOOTH_SIGNATURE, receipt.signature.as_str());
    assert(header_entries(*headers) == apply_headers(m, g));
    let ghost h = match event_type {
        Some(ev) => keep_header(g, X_TOLLBOOTH_EVENT@, ev@),
        None => g,
    };
    match event_type {
        Some(ev) => {
            proof {
                lemma_apply_keep(m, g, X_TOLLBOOTH_EVENT@, ev@);
            }
            set_header(headers, X_TOLLBOOTH_EVENT, ev);
        },
        None => {},
    }
    assert(header_entries(*headers) == apply_headers(m, h));
    match &receipt.session_id {
        Some(sid) => {
            proof {
                lemma_apply_keep(m, h, X_TOLLBOOTH_SESSION_ID@, sid@);
            }
            set_header(headers, X_TOLLBOOTH_SESSION_ID, sid.as_str());
        },
        None => {},
    }
}

/// Sets the headers that tell the upstream service a request was paid.
pub fn inject_receipt_headers(headers: &mut axum::http::HeaderMap, receipt: &PaymentReceipt)
    requires
        header_room(header_entries(*old(headers)), 8),
    ensures
        header_entries(*final(headers)) == apply_headers(header_entries(*old(headers)), receipt_headers_spec(*receipt, None)),
{
    inject_receipt_headers_with_event(headers, receipt, None);
}

/// The names of the receipt headers.
pub open spec fn receipt_header_name(name: Seq<char>) -> bool {
    name == X_TOLLBOOTH_VERIFIED@ || name == X_TOLLBOOTH_AMOUNT@ || name == X_TOLLBOOTH_UI_AMOUNT@ || name
        == X_TOLLBOOTH_PAYER@ || name == X_TOLLBOOTH_PROTOCOL@ || name == X_TOLLBOOTH_SIGNATURE@ || name
        == X_TOLLBOOTH_EVENT@ || name == X_TOLLBOOTH_SESSION_ID@
}

/// One header value, as a header map holds it.
pub open spec fn one_value(value: Seq<char>) -> Seq<Seq<u8>> {
    seq![encode_utf8(value)]
}

/// Injecting a receipt's headers into a map `m`: `x-tollbooth-verified` is
/// `true`; amount, UI amount, payer, protocol and signature are the receipt's
/// (each where it is an acceptable header value); the event header is the
/// event type where there is one, and the session-id header the receipt's
/// session id where it has one, both left as they were otherwise; no other
/// header changes. On a map without them, the event and session-id headers
/// are then present exactly when given.
pub proof fn law_receipt_headers(m: Map<Seq<char>, Seq<Seq<u8>>>, receipt: PaymentReceipt, event: Option<Seq<char>>)
    ensures
        ({
            let out = apply_headers(m, receipt_headers_spec(receipt, event));
            &&& out.dom().contains(X_TOLLBOOTH_VERIFIED@) && out[X_TOLLBOOTH_VERIFIED@] == one_value("true"@)
            &&& header_value_ok(receipt.amount@) ==> out[X_TOLLBOOTH_AMOUNT@] == one_value(receipt.amount@)
            &&& header_value_ok(receipt.ui_amount@) ==> out[X_TOLLBOOTH_UI_AMOUNT@] == one_value(
                receipt.ui_amount@,
            )
            &&& header_value_ok(receipt.payer@) ==> out[X_TOLLBOOTH_PAYER@] == one_value(receipt.payer@)
            &&& out[X_TOLLBOOTH_PROTOCOL@] == one_value(protocol_name(receipt.protocol))
            &&& header_value_ok(receipt.signature@) ==> out[X_TOLLBOOTH_SIGNATURE@] == one_value(
                receipt.signature@,
            )
            &&& (event is Some && header_value_ok(event->Some_0)) ==> out[X_TOLLBOOTH_EVENT@] == one_value(
                event->Some_0,
            )
            &&& event is None ==> (out.dom().contains(X_TOLLBOOTH_EVENT@) == m.dom().contains(
                X_TOLLBOOTH_EVENT@,
            ))
            &&& (receipt.session_id is Some && header_value_ok(receipt.session_id->Some_0@))
                ==> out[X_TOLLBOOTH_SESSION_ID@] == one_value(receipt.session_id->Some_0@)
            &&& receipt.session_id is None ==> (out.dom().contains(X_TOLLBOOTH_SESSION_ID@) == m.dom().contains(
                X_TOLLBOOTH_SESSION_ID@,
            ))
            &&& forall|name: Seq<char>|
                !receipt_header_name(name) ==> (#[trigger] out.dom().contains(name) == m.dom().contains(name)
                    && (m.dom().contains(name) ==> out[name] == m[name]))
        }),
{
    reveal_strlit("x-tollbooth-verified");
    reveal_strlit("x-tollbooth-amount");
    reveal_strlit("x-tollbooth-ui-amount");
    reveal_strlit("x-tollbooth-payer");
    reveal_strlit("x-tollbooth-protocol");
    reveal_strlit("x-tollbooth-signature");
    reveal_strlit("x-tollbooth-event");
    reveal_strlit("x-tollbooth-session-id");
    reveal_strlit("true");
    reveal_strlit("mpp");
    let v = X_TOLLBOOTH_VERIFIED@;
    let am = X_TOLLBOOTH_AMOUNT@;
    let ui = X_TOLLBOOTH_UI_AMOUNT@;
    let pa = X_TOLLBOOTH_PAYER@;
    let pr = X_TOLLBOOTH_PROTOCOL@;
    let si = X_TOLLBOOTH_SIGNATURE@;
    let ev = X_TOLLBOOTH_EVENT@;
    let se = X_TOLLBOOTH_SESSION_ID@;
    assert(v.len() == 20 && pr.len() == 20 && v[12] != pr[12]);
    assert(ui.len() == 21 && si.len() == 21 && ui[12] != si[12]);
    assert(pa.len() == 17 && ev.len() == 17 && pa[12] != ev[12]);
    assert(am.len() == 18 && se.len() == 22);
    assert(v != am && v != ui && v != pa && v != pr && v != si && v != ev && v != se);
    assert(am != ui && am != pa && am != pr && am != si && am != ev && am != se);
    assert(ui != pa && ui != pr && ui != si && ui != ev && ui != se);
    assert(pa != pr && pa != si && pa != ev && pa != se);
    assert(pr != si && pr != ev && pr != se);
    assert(si != ev && si != se);
    assert(ev != se);
    assert(header_value_ok("true"@)) by {
        assert(vstd::utf8::is_ascii_chars("true"@));
        vstd::utf8::is_ascii_chars_encode_utf8("true"@);
    }
    assert(header_value_ok(protocol_name(receipt.protocol))) by {
        assert(vstd::utf8::is_ascii_chars("mpp"@));
        vstd::utf8::is_ascii_chars_encode_utf8("mpp"@);
    }
    let e0: Seq<(Seq<char>, Seq<char>)> = Seq::empty();
    let a = keep_header(e0, v, "true"@);
    let b = keep_header(a, am, receipt.amount@);
    let c = keep_header(b, ui, receipt.ui_amount@);
    let d = keep_header(c, pa, receipt.payer@);
    let f = keep_header(d, pr, protocol_name(receipt.protocol));
    let g = keep_header(f, si, receipt.signature@);
    let h = match event {
        Some(x) => keep_header(g, ev, x),
        None => g,
    };
    lemma_apply_keep(m, e0, v, "true"@);
    lemma_apply_keep(m, a, am, receipt.amount@);
    lemma_apply_keep(m, b, ui, receipt.ui_amount@);
    lemma_apply_keep(m, c, pa, receipt.payer@);
    lemma_apply_keep(m, d, pr, protocol_name(receipt.protocol));
    lemma_apply_keep(m, f, si, receipt.signature@);
    if let Some(x) = event {
        lemma_apply_keep(m, g, ev, x);
    }
    if let Some(sid) = receipt.session_id {
        lemma_apply_keep(m, h, se, sid@);
    }
}

/// [`inject_receipt_headers_with_event`] where the map has room for the
/// headers: `false`, and the map unchanged, when it holds 6545 names or more
/// (inserting could then overflow the map's capacity).
pub fn try_inject_receipt_headers(
    headers: &mut axum::http::HeaderMap,
    receipt: &PaymentReceipt,
    event_type: Option<&str>,
) -> (r: bool)
    ensures
        r == header_room(header_entries(*old(headers)), 8),
        r ==> header_entries(*final(headers)) == apply_headers(
            header_entries(*old(headers)),
            receipt_headers_spec(
                *receipt,
                match event_type {
                    Some(e) => Some(e@),
                    None => None,
                },
            ),
        ),
        !r ==> *final(headers) == *old(headers),
{
    let n = header_count(headers);
    if n < 6545 {
        inject_receipt_headers_with_event(headers, receipt, event_type);
        true
    } else {
        false
    }
}

/// The receipt headers on a map that had none.
pub fn receipt_header_map(receipt: &PaymentReceipt, event_type: Option<&str>) -> (r: axum::http::HeaderMap)
    ensures
        header_entries(r) == apply_headers(
            no_headers(),
            receipt_headers_spec(
                *receipt,
                match event_type {
                    Some(e) => Some(e@),
                    None => None,
                },
            ),
        ),
{
    let mut headers = new_header_map();
    inject_receipt_headers_with_event(&mut headers, receipt, event_type);
    headers
}

/// The raw price of a route: its price text parsed for the token, zero when
/// it does not parse.
pub fn route_price_raw(price: &str, mint: Address, decimals: u8) -> (r: u64)
    requires
        decimals <= 19 || !amount_reaches_scale(price@, decimals),
    ensures
        match amount_from_display(price@, decimals) {
            Ok(raw) => r == raw,
            Err(_) => r == 0,
        },
{
    match TokenAmount::from_display(price, mint, decimals) {
        Ok(t) => t.raw,
        Err(_) => 0,
    }
}

/// What a session credential is charged: an opening pays the route's deposit
/// (the request price when the route has none or it does not parse); every
/// other credential pays the request price.
pub open spec fn session_cost_spec(
    credential: MppSessionCredential,
    deposit: Option<String>,
    decimals: u8,
    price_raw: u64,
) -> u64 {
    match (credential, deposit) {
        (MppSessionCredential::Open { .. }, Some(d)) => match amount_from_display(d@, decimals) {
            Ok(raw) => raw,
            Err(_) => price_raw,
        },
        _ => price_raw,
    }
}

/// The deposit a session route's challenge asks for, in raw units: the
/// route's deposit (zero when it does not parse), or the request price when
/// it has none.
pub open spec fn challenge_deposit_raw(deposit: Option<String>, decimals: u8, price_raw: u64) -> u64 {
    match deposit {
        Some(d) => match amount_from_display(d@, decimals) {
            Ok(raw) => raw,
            Err(_) => 0,
        },
        None => price_raw,
    }
}

/// The charge of a session credential (see [`session_cost_spec`]).
pub fn session_cost(
    credential: &MppSessionCredential,
    deposit: &Option<String>,
    mint: Address,
    decimals: u8,
    price_raw: u64,
) -> (r: u64)
    requires
        (credential is Open && deposit is Some) ==> (decimals <= 19 || !amount_reaches_scale(deposit->Some_0@, decimals)),
    ensures
        r == session_cost_spec(*credential, *deposit, decimals, price_raw),
{
    match credential {
        MppSessionCredential::Open { .. } => match deposit {
            Some(d) => match TokenAmount::from_display(d.as_str(), mint, decimals) {
                Ok(t) => t.raw,
                Err(_) => price_raw,
            },
            None => price_raw,
        },
        _ => price_raw,
    }
}

/// The deposit a session route's challenge asks for: the route's deposit
/// (zero when it does not parse), or the request price when it has none.
pub fn challenge_deposit(deposit: &Option<String>, mint: Address, decimals: u8, price_raw: u64) -> (r: TokenAmount)
    requires
        deposit matches Some(d) ==> (decimals <= 19 || !amount_reaches_scale(d@, decimals)),
    ensures
        r.mint == mint,
        r.decimals == decimals,
        r.raw == challenge_deposit_raw(*deposit, decimals, price_raw),
{
    match deposit {
        Some(d) => match TokenAmount::from_display(d.as_str(), mint, decimals) {
            Ok(t) => t,
            Err(_) => TokenAmount::new(0, mint, decimals),
        },
        None => TokenAmount::new(price_raw, mint, decimals),
    }
}

/// The webhook event of a paid session request: an opening, a close, or a payment.
pub open spec fn session_event_name(c: MppSessionCredential) -> Seq<char> {
    match c {
        MppSessionCredential::Open { .. } => "session.opened"@,
        MppSessionCredential::Close { .. } => "session.closed"@,
        _ => "payment.completed"@,
    }
}

/// The metric counting a paid session request.
pub open spec fn session_metric_name(c: MppSessionCredential) -> Seq<char> {
    match c {
        MppSessionCredential::Open { .. } => "payments.mpp.session.open"@,
        MppSessionCredential::Close { .. } => "payments.mpp.session.close"@,
        _ => "payments.mpp.session.bearer"@,
    }
}

/// The webhook event of a paid session request.
pub fn session_event_type(credential: &MppSessionCredential) -> (r: &'static str)
    ensures
        r@ == session_event_name(*credential),
{
    match credential {
        MppSessionCredential::Open { .. } => "session.opened",
        MppSessionCredential::Close { .. } => "session.closed",
        _ => "payment.completed",
    }
}

/// The metric counting a paid session request.
pub fn session_metric(credential: &MppSessionCredential) -> (r: &'static str)
    ensures
        r@ == session_metric_name(*credential),
{
    match credential {
        MppSessionCredential::Open { .. } => "payments.mpp.session.open",
        MppSessionCredential::Close { .. } => "payments.mpp.session.close",
        _ => "payments.mpp.session.bearer",
    }
}

/// Whether session credentials are looked at for a route: only on session routes.
pub fn accepts_session_credentials(route: &RouteEntry) -> (r: bool)
    ensures
        r == (route.mode == RouteMode::Session),
{
    matches!(route.mode, RouteMode::Session)
}

/// Whether webhook events are queued: only when webhooks are configured and enabled.
pub fn webhooks_enabled(config: &Option<WebhooksConfig>) -> (r: bool)
    ensures
        r == (config matches Some(w) && w.enabled),
{
    match config {
        Some(w) => w.enabled,
        None => false,
    }
}

/// HTTP methods the gateway forwards upstream.
#[derive(Debug, Clone, Copy, PartialEq, Eq, Structural)]
pub enum UpstreamMethod {
    Get,
    Post,
    Put,
    Delete,
    Patch,
    Head,
    Options,
}

/// The upstream method for a method name; anything unknown is GET.
pub open spec fn upstream_method_spec(m: Seq<char>) -> UpstreamMethod {
    if m == "POST"@ {
        UpstreamMethod::Post
    } else if m == "PUT"@ {
        UpstreamMethod::Put
    } else if m == "DELETE"@ {
        UpstreamMethod::Delete
    } else if m == "PATCH"@ {
        UpstreamMethod::Patch
    } else if m == "HEAD"@ {
        UpstreamMethod::Head
    } else if m == "OPTIONS"@ {
        UpstreamMethod::Options
    } else {
        UpstreamMethod::Get
    }
}

/// The upstream method for an (upper-cased) request method; anything unknown
/// is forwarded as GET.
pub fn upstream_method(method: &str) -> (r: UpstreamMethod)
    ensures
        r == upstream_method_spec(method@),
{
    if str_eq(method, "POST") {
        UpstreamMethod::Post
    } else if str_eq(method, "PUT") {
        UpstreamMethod::Put
    } else if str_eq(method, "DELETE") {
        UpstreamMethod::Delete
    } else if str_eq(method, "PATCH") {
        UpstreamMethod::Patch
    } else if str_eq(method, "HEAD") {
        UpstreamMethod::Head
    } else if str_eq(method, "OPTIONS") {
        UpstreamMethod::Options
    } else {
        UpstreamMethod::Get
    }
}

/// Whether the request body is forwarded: for POST, PUT and PATCH.
pub fn forwards_body(m: UpstreamMethod) -> (r: bool)
    ensures
        r == (m == UpstreamMethod::Post || m == UpstreamMethod::Put || m == UpstreamMethod::Patch),
{
    match m {
        UpstreamMethod::Post | UpstreamMethod::Put | UpstreamMethod::Patch => true,
        _ => false,
    }
}

/// Request headers that are not forwarded: hop-by-hop headers and the payment
/// credentials themselves.
pub open spec fn withheld_header(name: Seq<char>) -> bool {
    name == "host"@ || name == "connection"@ || name == "transfer-encoding"@ || name == "keep-alive"@ || name
        == "x-payment-signature"@ || name == "x-payment-credential"@ || name == "x-payment-protocol"@
}

/// Whether a request header (lower-case name) is forwarded upstream.
pub fn forwards_header(name: &str) -> (r: bool)
    ensures
        r == !withheld_header(name@),
{
    !(str_eq(name, "host") || str_eq(name, "connection") || str_eq(name, "transfer-encoding") || str_eq(
        name,
        "keep-alive",
    ) || str_eq(name, "x-payment-signature") || str_eq(name, "x-payment-credential") || str_eq(
        name,
        "x-payment-protocol",
    ))
}

/// The upstream URL of a request: the upstream base, the path, and `?query`
/// when the request has a query.
pub fn upstream_url(upstream: &str, path: &str, query: Option<&str>) -> (r: String)
    ensures
        r@ == upstream@ + path@ + match query {
            Some(q) => "?"@ + q@,
            None => Seq::<char>::empty(),
        },
{
    let mut u = text(upstream);
    u.append(path);
    match query {
        Some(q) => {
            u.append("?");
            u.append(q);
        },
        None => {},
    }
    u
}

/// How long a webhook delivery waits before its next attempt: nothing on the
/// first attempt, then 1 second, then 5 seconds.
pub fn webhook_backoff_secs(attempts: i32) -> (r: Option<u64>)
    ensures
        attempts <= 0 ==> r is None,
        attempts == 1 ==> r == Some(1u64),
        attempts >= 2 ==> r == Some(5u64),
{
    if attempts <= 0 {
        None
    } else if attempts == 1 {
        Some(1)
    } else {
        Some(5)
    }
}

/// Which resolution tier a metrics query reads: minutes for at most a day,
/// hours for at most thirty days, days beyond.
pub fn metrics_table(from: i64, to: i64) -> (r: &'static str)
    requires
        i64::MIN <= to - from <= i64::MAX,
    ensures
        to - from <= 86400 ==> r@ == "metrics_1m"@,
        86400 < to - from <= 30 * 86400 ==> r@ == "metrics_1h"@,
        to - from > 30 * 86400 ==> r@ == "metrics_1d"@,
{
    let range = to - from;
    if range <= 86400 {
        "metrics_1m"
    } else if range <= 30 * 86400 {
        "metrics_1h"
    } else {
        "metrics_1d"
    }
}

/// The value of an HTTP header.
#[verifier::external_type_specification]
#[verifier::external_body]
pub struct ExHeaderValue(axum::http::HeaderValue);

/// The header map of an HTTP request or response.
#[verifier::external_type_specification]
#[verifier::external_body]
#[verifier::reject_recursive_types(T)]
pub struct ExHeaderMap<T>(axum::http::HeaderMap<T>);

/// Negotiates the payment protocol of a request from its headers; MPP is the
/// only one supported.
pub fn negotiate_protocol(_headers: &axum::http::HeaderMap, _config: &ProtocolsConfig) -> (r: ProtocolKind)
    ensures
        r == ProtocolKind::Mpp,
{
    ProtocolKind::Mpp
}

/// What the payment gate asks for next on a priced route.
#[derive(Debug, PartialEq, Eq)]
pub enum GateAction {
    /// Let the session handler process the credential presented, charging `cost`.
    ProcessSession { cost: u64 },
    /// Let the charge handler verify the payment made by this transaction,
    /// of at least `min_amount`.
    VerifyCharge { signature: String, min_amount: u64 },
    /// The request is paid: forward it with this receipt, queue the webhook
    /// `event_type`, and count `metric` and `amount` of revenue.
    Paid { receipt: PaymentReceipt, event_type: &'static str, metric: &'static str, amount: u64 },
    /// Answer 402 with the session challenge for this deposit.
    SessionChallenge(TokenAmount),
    /// Answer 402 with the charge challenge for this price.
    ChargeChallenge(TokenAmount),
    /// Answer a bare 402.
    BareChallenge,
}

/// What the handler asked by the payment gate answered.
#[derive(Debug, PartialEq, Eq)]
pub enum GateEvent {
    SessionAnswered(Result<PaymentReceipt, PaymentError>),
    ChargeAnswered(Result<PaymentReceipt, PaymentError>),
}

/// Where the payment gate stands.
#[derive(Debug, Clone, PartialEq, Eq)]
pub enum GateStage {
    /// Waiting for the session handler, which processes `credential` for `cost`.
    Session { credential: MppSessionCredential, cost: u64 },
    /// Waiting for the charge handler.
    Charge,
    /// Finished.
    Done,
}

/// The payment gate of one request to a priced route: a session credential
/// is tried first (on session routes), then a charge proof, then the request
/// is answered with a 402 challenge.
#[derive(Debug, Clone, PartialEq, Eq)]
pub struct GateFlow {
    pub route: RouteEntry,
    pub mint: Address,
    pub decimals: u8,
    /// The route's price in raw units.
    pub price_raw: u64,
    /// The payment signature presented, when a charge handler can verify it.
    pub charge_signature: Option<String>,
    /// Whether a session handler is configured.
    pub session_enabled: bool,
    /// Whether a charge handler is configured.
    pub charge_enabled: bool,
    pub stage: GateStage,
}

/// The payment gate's answer when no credential paid: the challenge of the route's
/// kind if its handler is configured, a bare 402 otherwise.
pub open spec fn challenge_action_ok(f: GateFlow, a: GateAction) -> bool {
    if f.route.mode == RouteMode::Session {
        if f.session_enabled {
            a matches GateAction::SessionChallenge(t) && t.raw == challenge_deposit_raw(
                f.route.deposit,
                f.decimals,
                f.price_raw,
            ) && t.mint == f.mint && t.decimals == f.decimals
        } else {
            a == GateAction::BareChallenge
        }
    } else if f.charge_enabled {
        a == GateAction::ChargeChallenge(TokenAmount { raw: f.price_raw, mint: f.mint, decimals: f.decimals })
    } else {
        a == GateAction::BareChallenge
    }
}

/// The payment gate's step once no session credential paid: verify the charge proof
/// if one was presented, otherwise challenge.
pub open spec fn charge_step_ok(f: GateFlow, g: GateFlow, a: GateAction) -> bool {
    match f.charge_signature {
        Some(sig) => g.stage == GateStage::Charge && a == (GateAction::VerifyCharge {
            signature: sig,
            min_amount: f.price_raw,
        }),
        None => g.stage == GateStage::Done && challenge_action_ok(f, a),
    }
}

/// The route's deposit, if any, can be parsed for the token's decimals
/// (parsing it panics when it reaches a scale above 19 decimals).
pub open spec fn deposit_scales(route: RouteEntry, decimals: u8) -> bool {
    route.deposit matches Some(d) ==> (decimals <= 19 || !amount_reaches_scale(d@, decimals))
}

/// A challenge of this request parses the route's deposit: on session routes
/// with a session handler.
pub open spec fn challenge_parses_deposit(f: GateFlow) -> bool {
    f.route.mode == RouteMode::Session && f.session_enabled
}

/// The payment gate's first step parses the route's deposit: to charge an opening
/// credential, or for a challenge given at once.
pub open spec fn start_parses_deposit(
    route: RouteEntry,
    credential: Option<MppSessionCredential>,
    charge_signature: Option<String>,
    session_enabled: bool,
) -> bool {
    ||| route.mode == RouteMode::Session && credential matches Some(MppSessionCredential::Open { .. })
    ||| route.mode == RouteMode::Session && credential is None && charge_signature is None && session_enabled
}

/// The step after `event` parses the route's deposit: for a challenge after
/// every credential presented was refused.
pub open spec fn step_parses_deposit(f: GateFlow, event: GateEvent) -> bool {
    &&& ((event matches GateEvent::SessionAnswered(Err(_)) && f.charge_signature is None) || event matches GateEvent::ChargeAnswered(Err(_)))
    &&& challenge_parses_deposit(f)
}

/// `g` is `f` at another stage.
pub open spec fn same_request(f: GateFlow, g: GateFlow) -> bool {
    f.route == g.route && f.mint == g.mint && f.decimals == g.decimals && f.price_raw == g.price_raw
        && f.charge_signature == g.charge_signature && f.session_enabled == g.session_enabled
        && f.charge_enabled == g.charge_enabled
}

/// The event each stage of the payment gate waits for.
pub open spec fn gate_expects(stage: GateStage, event: GateEvent) -> bool {
    match stage {
        GateStage::Session { .. } => event is SessionAnswered,
        GateStage::Charge => event is ChargeAnswered,
        GateStage::Done => false,
    }
}

impl GateFlow {
    fn challenge(&self) -> (a: GateAction)
        requires
            challenge_parses_deposit(*self) ==> deposit_scales(self.route, self.decimals),
        ensures
            challenge_action_ok(*self, a),
    {
        if matches!(self.route.mode, RouteMode::Session) {
            if self.session_enabled {
                GateAction::SessionChallenge(challenge_deposit(&self.route.deposit, self.mint, self.decimals, self.price_raw))
            } else {
                GateAction::BareChallenge
            }
        } else if self.charge_enabled {
            GateAction::ChargeChallenge(TokenAmount::new(self.price_raw, self.mint, self.decimals))
        } else {
            GateAction::BareChallenge
        }
    }

    fn charge_step(self) -> (r: (GateFlow, GateAction))
        requires
            (self.charge_signature is None && challenge_parses_deposit(self)) ==> deposit_scales(self.route, self.decimals),
        ensures
            same_request(self, r.0),
            charge_step_ok(self, r.0, r.1),
    {
        match &self.charge_signature {
            Some(sig) => {
                let a = GateAction::VerifyCharge { signature: sig.clone(), min_amount: self.price_raw };
                (GateFlow { stage: GateStage::Charge, ..self }, a)
            },
            None => {
                let a = self.challenge();
                (GateFlow { stage: GateStage::Done, ..self }, a)
            },
        }
    }

    /// The payment gate of a request to `route`, priced `price_raw` raw units,
    /// presenting the session `credential` (when one was read and a session
    /// handler is configured) and the payment `charge_signature` (when one
    /// was presented and a charge handler is configured). A credential is
    /// only looked at on session routes.
    pub fn new(
        route: RouteEntry,
        mint: Address,
        decimals: u8,
        price_raw: u64,
        credential: Option<MppSessionCredential>,
        charge_signature: Option<String>,
        session_enabled: bool,
        charge_enabled: bool,
    ) -> (r: (GateFlow, GateAction))
        requires
            start_parses_deposit(route, credential, charge_signature, session_enabled) ==> deposit_scales(route, decimals),
        ensures
            r.0.route == route && r.0.mint == mint && r.0.decimals == decimals && r.0.price_raw == price_raw
                && r.0.charge_signature == charge_signature && r.0.session_enabled == session_enabled
                && r.0.charge_enabled == charge_enabled,
            (credential is Some && route.mode == RouteMode::Session) ==> {
                let c = credential->Some_0;
                let cost = session_cost_spec(c, route.deposit, decimals, price_raw);
                r.0.stage == (GateStage::Session { credential: c, cost }) && r.1 == GateAction::ProcessSession { cost }
            },
            !(credential is Some && route.mode == RouteMode::Session) ==> charge_step_ok(
                GateFlow { stage: GateStage::Done, ..r.0 },
                r.0,
                r.1,
            ),
    {
        let f = GateFlow {
            route,
            mint,
            decimals,
            price_raw,
            charge_signature,
            session_enabled,
            charge_enabled,
            stage: GateStage::Done,
        };
        match credential {
            Some(c) => {
                if matches!(f.route.mode, RouteMode::Session) {
                    let cost = session_cost(&c, &f.route.deposit, mint, decimals, price_raw);
                    (GateFlow { stage: GateStage::Session { credential: c, cost }, ..f }, GateAction::ProcessSession { cost })
                } else {
                    f.charge_step()
                }
            },
            None => f.charge_step(),
        }
    }

    /// Whether the payment gate's first step parses the route's deposit (see
    /// [`start_parses_deposit`]).
    pub fn start_parses(
        route: &RouteEntry,
        credential: &Option<MppSessionCredential>,
        charge_signature: &Option<String>,
        session_enabled: bool,
    ) -> (r: bool)
        ensures
            r == start_parses_deposit(*route, *credential, *charge_signature, session_enabled),
    {
        let session_route = matches!(route.mode, RouteMode::Session);
        (session_route && matches!(credential, Some(MppSessionCredential::Open { .. }))) || (session_route
            && credential.is_none() && charge_signature.is_none() && session_enabled)
    }

    /// Whether the step after `event` parses the route's deposit (see
    /// [`step_parses_deposit`]).
    pub fn step_parses(&self, event: &GateEvent) -> (r: bool)
        ensures
            r == step_parses_deposit(*self, *event),
    {
        let refused = match event {
            GateEvent::SessionAnswered(Err(_)) => self.charge_signature.is_none(),
            GateEvent::ChargeAnswered(Err(_)) => true,
            _ => false,
        };
        refused && matches!(self.route.mode, RouteMode::Session) && self.session_enabled
    }

    /// Whether the payment gate waits for `event`.
    pub fn expects(&self, event: &GateEvent) -> (r: bool)
        ensures
            r == gate_expects(self.stage, *event),
    {
        match self.stage {
            GateStage::Session { .. } => matches!(event, GateEvent::SessionAnswered(_)),
            GateStage::Charge => matches!(event, GateEvent::ChargeAnswered(_)),
            GateStage::Done => false,
        }
    }

    /// The next step after a handler answered. A receipt pays the request; a
    /// refused session credential falls back to the charge proof, and a
    /// refused charge proof to the challenge.
    pub fn step(self, event: GateEvent) -> (r: (GateFlow, GateAction))
        requires
            step_parses_deposit(self, event) ==> deposit_scales(self.route, self.decimals),
            gate_expects(self.stage, event),
        ensures
            same_request(self, r.0),
            event matches GateEvent::SessionAnswered(Ok(rc)) ==> r.0.stage == GateStage::Done && (r.1 matches GateAction::Paid {
                receipt,
                event_type,
                metric,
                amount,
            } && receipt == rc && event_type@ == session_event_name(self.stage->Session_credential) && metric@
                == session_metric_name(self.stage->Session_credential) && amount == self.stage->Session_cost),
            event matches GateEvent::SessionAnswered(Err(_)) ==> charge_step_ok(self, r.0, r.1),
            event matches GateEvent::ChargeAnswered(Ok(rc)) ==> r.0.stage == GateStage::Done && (r.1 matches GateAction::Paid {
                receipt,
                event_type,
                metric,
                amount,
            } && receipt == rc && event_type@ == "payment.completed"@ && metric@ == "payments.mpp.charge"@ && amount
                == self.price_raw),
            event matches GateEvent::ChargeAnswered(Err(_)) ==> r.0.stage == GateStage::Done && challenge_action_ok(
                self,
                r.1,
            ),
            // a request is paid only by a handler's receipt
            r.1 matches GateAction::Paid { receipt, .. } ==> (event == GateEvent::SessionAnswered(Ok(receipt))
                || event == GateEvent::ChargeAnswered(Ok(receipt))),
    {
        match event {
            GateEvent::SessionAnswered(Ok(receipt)) => {
                let (event_type, metric, amount) = match &self.stage {
                    GateStage::Session { credential, cost } => (session_event_type(credential), session_metric(credential), *cost),
                    _ => ("payment.completed", "payments.mpp.session.bearer", 0),
                };
                (GateFlow { stage: GateStage::Done, ..self }, GateAction::Paid { receipt, event_type, metric, amount })
            },
            GateEvent::SessionAnswered(Err(_)) => self.charge_step(),
            GateEvent::ChargeAnswered(Ok(receipt)) => {
                let amount = self.price_raw;
                (
                    GateFlow { stage: GateStage::Done, ..self },
                    GateAction::Paid { receipt, event_type: "payment.completed", metric: "payments.mpp.charge", amount },
                )
            },
            GateEvent::ChargeAnswered(Err(_)) => {
                let a = self.challenge();
                (GateFlow { stage: GateStage::Done, ..self }, a)
            },
        }
    }
}

} // verus!
