//! The pool's JSON-RPC messages, and the codec that reads its answers with a
//! three-tier fallback: the expected schema, then a pool error envelope, then
//! the body as plain text.

use vstd::prelude::*;
use crate::json::{decimal_of, entry_of, json_of, member_of, parse_decimal, parse_json, Json};

verus! {

/// Positional parameters of a nonce submission: address, nonce, the optional
/// target deadline, the deadline and the target height.
#[derive(Debug, Clone)]
pub struct SubmitNonceParams(pub String, pub String, pub Option<u64>, pub u64, pub u64);

/// A JSON-RPC envelope for the `submitNonce` method.
#[derive(Debug, Clone)]
pub struct SubmitNonceRequest {
    pub jsonrpc: String,
    pub id: String,
    pub method: String,
    pub params: Option<SubmitNonceParams>,
}

/// The request asking the pool for the current mining parameters.
#[derive(Debug, Clone)]
pub struct GetMiningInfoRequest<'a> {
    pub request_type: &'a str,
}

/// What the pool says of a submitted nonce.
#[derive(Debug, PartialEq)]
pub struct SubmitNonceResult {
    pub accept: Option<bool>,
    pub plotid: Option<String>,
    pub deadline: Option<u64>,
    pub targetdeadline: Option<u64>,
}

/// The answer to a nonce submission.
#[derive(Debug, PartialEq)]
pub struct SubmitNonceResponse {
    pub result: SubmitNonceResult,
    pub error: Option<String>,
    pub id: String,
}

/// The mining parameters the pool publishes for the current block.
#[derive(Debug, PartialEq)]
pub struct MiningInfoResult {
    pub generation_signature: String,
    pub base_target: u64,
    pub height: u64,
    pub target_deadline: u64,
}

/// The answer to a mining-info request.
#[derive(Debug, PartialEq)]
pub struct MiningInfoResponse {
    pub result: MiningInfoResult,
    pub error: Option<String>,
    pub id: String,
}

/// An error reported by the pool, or made from a body that could not be read.
#[derive(Debug, PartialEq)]
pub struct PoolError {
    pub code: i32,
    pub message: String,
}

/// Why a request to the pool failed: the transport (with its description),
/// or the pool itself.
#[derive(Debug, PartialEq)]
pub enum FetchError {
    Http(String),
    Pool(PoolError),
}

impl From<PoolError> for FetchError {
    fn from(err: PoolError) -> (r: FetchError)
        ensures
            r == FetchError::Pool(err),
    {
        FetchError::Pool(err)
    }
}

impl vstd::std_specs::convert::FromSpecImpl<PoolError> for FetchError {
    open spec fn obeys_from_spec() -> bool {
        true
    }

    open spec fn from_spec(err: PoolError) -> FetchError {
        FetchError::Pool(err)
    }
}

/// The character of a decimal digit.
pub open spec fn digit_char(d: nat) -> char {
    if d == 0 { '0' } else if d == 1 { '1' } else if d == 2 { '2' } else if d == 3 { '3' }
    else if d == 4 { '4' } else if d == 5 { '5' } else if d == 6 { '6' } else if d == 7 { '7' }
    else if d == 8 { '8' } else { '9' }
}

/// The decimal numeral of `n`, without leading zeros.
pub open spec fn decimal_text(n: nat) -> Seq<char>
    decreases n,
{
    if n < 10 {
        seq![digit_char(n)]
    } else {
        decimal_text(n / 10).push(digit_char(n % 10))
    }
}

fn digit_str(d: u64) -> (r: &'static str)
    requires
        d < 10,
    ensures
        r@ == seq![digit_char(d as nat)],
{
    proof {
        reveal_strlit("0");
        reveal_strlit("1");
        reveal_strlit("2");
        reveal_strlit("3");
        reveal_strlit("4");
        reveal_strlit("5");
        reveal_strlit("6");
        reveal_strlit("7");
        reveal_strlit("8");
        reveal_strlit("9");
    }
    if d == 0 { "0" } else if d == 1 { "1" } else if d == 2 { "2" } else if d == 3 { "3" }
    else if d == 4 { "4" } else if d == 5 { "5" } else if d == 6 { "6" } else if d == 7 { "7" }
    else if d == 8 { "8" } else { "9" }
}

/// Writes `n` in decimal.
pub fn decimal_string(n: u64) -> (r: String)
    ensures
        r@ == decimal_text(n as nat),
    decreases n,
{
    if n < 10 {
        String::from_str(digit_str(n))
    } else {
        let head = decimal_string(n / 10);
        let r = head.concat(digit_str(n % 10));
        assert(r@ =~= decimal_text(n as nat));
        r
    }
}

impl SubmitNonceRequest {
    /// The JSON-RPC 2.0 envelope of a `submitNonce` call, with its positional
    /// parameters: address, nonce in decimal, the optional target deadline,
    /// deadline and target height.
    pub fn new(
        id: String,
        address: String,
        nonce: u64,
        target_deadline: Option<u64>,
        deadline: u64,
        height: u64,
    ) -> (r: SubmitNonceRequest)
        ensures
            r.jsonrpc@ == "2.0"@,
            r.id == id,
            r.method@ == "submitNonce"@,
            r.params matches Some(p) && p.0 == address && p.1@ == decimal_text(nonce as nat)
                && p.2 == target_deadline && p.3 == deadline && p.4 == height,
    {
        SubmitNonceRequest {
            jsonrpc: String::from_str("2.0"),
            id,
            method: String::from_str("submitNonce"),
            params: Some(SubmitNonceParams(address, decimal_string(nonce), target_deadline, deadline, height)),
        }
    }
}

impl GetMiningInfoRequest<'static> {
    /// The request for the current mining parameters.
    pub fn new() -> (r: Self)
        ensures
            r.request_type@ == "getMiningInfo"@,
    {
        GetMiningInfoRequest { request_type: "getMiningInfo" }
    }
}

/// The target deadline assumed when the pool publishes none.
pub fn default_target_deadline() -> (r: u64)
    ensures
        r == u64::MAX,
{
    u64::MAX
}

// ---- reading single values ----

/// A JSON boolean.
pub open spec fn bool_of(j: Json) -> Option<bool> {
    match j {
        Json::Bool(b) => Some(b),
        _ => None,
    }
}

/// A JSON string.
pub open spec fn string_of(j: Json) -> Option<String> {
    match j {
        Json::Str(s) => Some(s),
        _ => None,
    }
}

/// A non-negative integer given either as a JSON number or as a JSON string
/// holding a decimal numeral.
pub open spec fn str_or_int_of(j: Json) -> Option<u64> {
    match j {
        Json::Number(u, _) => u,
        Json::Str(s) => decimal_of(s@),
        _ => None,
    }
}

/// A JSON integer in the range of `i32`.
pub open spec fn i32_of(j: Json) -> Option<i32> {
    match j {
        Json::Number(u, i) => if u is Some && u->0 <= i32::MAX {
            Some(u->0 as i32)
        } else if i is Some && i32::MIN <= i->0 <= i32::MAX {
            Some(i->0 as i32)
        } else {
            None
        },
        _ => None,
    }
}

/// An optional member: absent or null gives `Some(None)`, a value that reads
/// gives `Some(Some(v))`, any other value fails.
pub open spec fn optional_of<T>(m: Option<Json>, read: spec_fn(Json) -> Option<T>) -> Option<Option<T>> {
    match m {
        None => Some(None),
        Some(Json::Null) => Some(None),
        Some(v) => match read(v) {
            Some(x) => Some(Some(x)),
            None => None,
        },
    }
}

/// A required member that reads.
pub open spec fn required_of<T>(m: Option<Json>, read: spec_fn(Json) -> Option<T>) -> Option<T> {
    match m {
        Some(v) => read(v),
        None => None,
    }
}

fn read_bool(j: &Json) -> (r: Option<bool>)
    ensures
        r == bool_of(*j),
{
    match j {
        Json::Bool(b) => Some(*b),
        _ => None,
    }
}

fn read_string(j: &Json) -> (r: Option<String>)
    ensures
        r == string_of(*j),
{
    match j {
        Json::Str(s) => Some(s.clone()),
        _ => None,
    }
}

/// Reads an integer that the pool may send as a number or as a string of
/// digits; both forms give the same value.
pub fn from_str_or_int(j: &Json) -> (r: Option<u64>)
    ensures
        r == str_or_int_of(*j),
{
    match j {
        Json::Number(u, _) => *u,
        Json::Str(s) => parse_decimal(s.as_str()),
        _ => None,
    }
}

fn read_i32(j: &Json) -> (r: Option<i32>)
    ensures
        r == i32_of(*j),
{
    match j {
        Json::Number(u, i) => {
            if let Some(x) = u {
                if *x <= i32::MAX as u64 {
                    return Some(*x as i32);
                }
            }
            if let Some(y) = i {
                if i32::MIN as i64 <= *y && *y <= i32::MAX as i64 {
                    return Some(*y as i32);
                }
            }
            None
        },
        _ => None,
    }
}

fn optional_bool(j: &Json, key: &str) -> (r: Option<Option<bool>>)
    ensures
        r == optional_of(member_of(*j, key@), |v: Json| bool_of(v)),
{
    match j.member(key) {
        None => Some(None),
        Some(Json::Null) => Some(None),
        Some(v) => match read_bool(v) {
            Some(x) => Some(Some(x)),
            None => None,
        },
    }
}

fn optional_string(j: &Json, key: &str) -> (r: Option<Option<String>>)
    ensures
        r == optional_of(member_of(*j, key@), |v: Json| string_of(v)),
{
    match j.member(key) {
        None => Some(None),
        Some(Json::Null) => Some(None),
        Some(v) => match read_string(v) {
            Some(x) => Some(Some(x)),
            None => None,
        },
    }
}

fn optional_str_or_int(j: &Json, key: &str) -> (r: Option<Option<u64>>)
    ensures
        r == optional_of(member_of(*j, key@), |v: Json| str_or_int_of(v)),
{
    match j.member(key) {
        None => Some(None),
        Some(Json::Null) => Some(None),
        Some(v) => match from_str_or_int(v) {
            Some(x) => Some(Some(x)),
            None => None,
        },
    }
}

fn required_string(j: &Json, key: &str) -> (r: Option<String>)
    ensures
        r == required_of(member_of(*j, key@), |v: Json| string_of(v)),
{
    match j.member(key) {
        Some(v) => read_string(v),
        None => None,
    }
}

fn required_str_or_int(j: &Json, key: &str) -> (r: Option<u64>)
    ensures
        r == required_of(member_of(*j, key@), |v: Json| str_or_int_of(v)),
{
    match j.member(key) {
        Some(v) => from_str_or_int(v),
        None => None,
    }
}

fn required_i32(j: &Json, key: &str) -> (r: Option<i32>)
    ensures
        r == required_of(member_of(*j, key@), |v: Json| i32_of(v)),
{
    match j.member(key) {
        Some(v) => read_i32(v),
        None => None,
    }
}

// ---- the schemas ----

/// A value that a JSON document may describe.
pub trait FromJson: Sized {
    /// The value the document describes, if it follows the schema.
    spec fn from_json_spec(j: Json) -> Option<Self>;

    /// Reads the value from the document.
    fn from_json(j: &Json) -> (r: Option<Self>)
        ensures
            r == Self::from_json_spec(*j),
    ;
}

/// The result part of a submission answer: an object whose members, each
/// optional, have the right types.
pub open spec fn submit_nonce_result_of(j: Json) -> Option<SubmitNonceResult> {
    let accept = optional_of(member_of(j, "accept"@), |v: Json| bool_of(v));
    let plotid = optional_of(member_of(j, "plotid"@), |v: Json| string_of(v));
    let deadline = optional_of(member_of(j, "deadline"@), |v: Json| str_or_int_of(v));
    let target = optional_of(member_of(j, "targetdeadline"@), |v: Json| str_or_int_of(v));
    if j is Object && accept is Some && plotid is Some && deadline is Some && target is Some {
        Some(SubmitNonceResult {
            accept: accept->0,
            plotid: plotid->0,
            deadline: deadline->0,
            targetdeadline: target->0,
        })
    } else {
        None
    }
}

/// The result part of a mining-info answer; a missing target deadline is the
/// largest one.
pub open spec fn mining_info_result_of(j: Json) -> Option<MiningInfoResult> {
    let gen_sig = required_of(member_of(j, "generationSignature"@), |v: Json| string_of(v));
    let base_target = required_of(member_of(j, "baseTarget"@), |v: Json| str_or_int_of(v));
    let height = required_of(member_of(j, "height"@), |v: Json| str_or_int_of(v));
    let target = match member_of(j, "targetDeadline"@) {
        None => Some(u64::MAX),
        Some(v) => str_or_int_of(v),
    };
    if gen_sig is Some && base_target is Some && height is Some && target is Some {
        Some(MiningInfoResult {
            generation_signature: gen_sig->0,
            base_target: base_target->0,
            height: height->0,
            target_deadline: target->0,
        })
    } else {
        None
    }
}

/// The `error` and `id` members every answer carries, with its result.
pub open spec fn envelope_of<T>(j: Json, result: Option<T>) -> Option<(T, Option<String>, String)> {
    let error = optional_of(member_of(j, "error"@), |v: Json| string_of(v));
    let id = required_of(member_of(j, "id"@), |v: Json| string_of(v));
    if result is Some && error is Some && id is Some {
        Some((result->0, error->0, id->0))
    } else {
        None
    }
}

/// The object under the `result` member, when there is one.
pub open spec fn result_member(j: Json) -> Option<Json> {
    match member_of(j, "result"@) {
        Some(r) => if r is Object { Some(r) } else { None },
        None => None,
    }
}

/// A whole submission answer.
pub open spec fn submit_nonce_response_of(j: Json) -> Option<SubmitNonceResponse> {
    let result = match result_member(j) {
        Some(r) => submit_nonce_result_of(r),
        None => None,
    };
    match envelope_of(j, result) {
        Some(e) => Some(SubmitNonceResponse { result: e.0, error: e.1, id: e.2 }),
        None => None,
    }
}

/// A whole mining-info answer.
pub open spec fn mining_info_response_of(j: Json) -> Option<MiningInfoResponse> {
    let result = match result_member(j) {
        Some(r) => mining_info_result_of(r),
        None => None,
    };
    match envelope_of(j, result) {
        Some(e) => Some(MiningInfoResponse { result: e.0, error: e.1, id: e.2 }),
        None => None,
    }
}

/// The pool error envelope `{"error": {"code": .., "message": ..}}`.
pub open spec fn pool_error_of(j: Json) -> Option<PoolError> {
    match member_of(j, "error"@) {
        Some(e) => {
            let code = required_of(member_of(e, "code"@), |v: Json| i32_of(v));
            let message = required_of(member_of(e, "message"@), |v: Json| string_of(v));
            if code is Some && message is Some {
                Some(PoolError { code: code->0, message: message->0 })
            } else {
                None
            }
        },
        None => None,
    }
}

/// The deadline of a submission answer reads the same whether the pool sends
/// it as a JSON number or as a string of its decimal digits.
pub proof fn lemma_deadline_forms_agree(j: Json, s: String, n: u64, signed: Option<i64>)
    requires
        decimal_of(s@) == Some(n),
        member_of(j, "deadline"@) == Some(Json::Str(s))
            || member_of(j, "deadline"@) == Some(Json::Number(Some(n), signed)),
    ensures
        submit_nonce_result_of(j) is Some ==> submit_nonce_result_of(j)->0.deadline == Some(n),
{
}

/// Two member lists that are alike but for the value of member `k`.
pub open spec fn alike_but_at(e1: Seq<(String, Json)>, e2: Seq<(String, Json)>, k: int) -> bool {
    &&& e1.len() == e2.len()
    &&& 0 <= k < e1.len()
    &&& e1[k].0 == e2[k].0
    &&& forall|i: int| 0 <= i < e1.len() && i != k ==> e1[i] == e2[i]
}

proof fn lemma_entry_of_alike(e1: Seq<(String, Json)>, e2: Seq<(String, Json)>, k: int, key: Seq<char>)
    requires
        alike_but_at(e1, e2, k),
    ensures
        entry_of(e1, key) == entry_of(e2, key) || (e1[k].0@ == key && entry_of(e1, key) == Some(
            e1[k].1,
        ) && entry_of(e2, key) == Some(e2[k].1)),
    decreases e1.len(),
{
    if e1[0].0@ != key {
        assert(e1[0] == e2[0] || k == 0);
        if k == 0 {
            assert(e1.drop_first() =~= e2.drop_first());
        } else {
            let (t1, t2) = (e1.drop_first(), e2.drop_first());
            assert forall|i: int| 0 <= i < t1.len() && i != k - 1 implies t1[i] == t2[i] by {
                assert(t1[i] == e1[i + 1] && t2[i] == e2[i + 1]);
            }
            lemma_entry_of_alike(t1, t2, k - 1, key);
        }
    }
}

/// The result part of a submission answer reads the same whether its
/// deadline is a string of decimal digits or the JSON number they denote.
pub proof fn lemma_deadline_form_keeps_result(
    v1: Vec<(String, Json)>,
    v2: Vec<(String, Json)>,
    k: int,
    s: String,
    n: u64,
    signed: Option<i64>,
)
    requires
        alike_but_at(v1@, v2@, k),
        v1@[k].0@ == "deadline"@,
        v1@[k].1 == Json::Str(s),
        v2@[k].1 == Json::Number(Some(n), signed),
        decimal_of(s@) == Some(n),
    ensures
        submit_nonce_result_of(Json::Object(v1)) == submit_nonce_result_of(Json::Object(v2)),
{
    reveal_strlit("deadline");
    reveal_strlit("accept");
    reveal_strlit("plotid");
    reveal_strlit("targetdeadline");
    lemma_entry_of_alike(v1@, v2@, k, "accept"@);
    lemma_entry_of_alike(v1@, v2@, k, "plotid"@);
    lemma_entry_of_alike(v1@, v2@, k, "deadline"@);
    lemma_entry_of_alike(v1@, v2@, k, "targetdeadline"@);
    assert("accept"@.len() != "deadline"@.len());
    assert("plotid"@.len() != "deadline"@.len());
    assert("targetdeadline"@.len() != "deadline"@.len());
}

/// A submission answer decodes to the same value, or the same error, whether
/// the deadline in its result is a string of decimal digits or the JSON number
/// they denote; everything else in the two documents alike.
pub proof fn lemma_deadline_form_keeps_answer(
    t1: Vec<(String, Json)>,
    t2: Vec<(String, Json)>,
    m: int,
    v1: Vec<(String, Json)>,
    v2: Vec<(String, Json)>,
    k: int,
    s: String,
    n: u64,
    signed: Option<i64>,
)
    requires
        alike_but_at(t1@, t2@, m),
        t1@[m].0@ == "result"@,
        t1@[m].1 == Json::Object(v1),
        t2@[m].1 == Json::Object(v2),
        alike_but_at(v1@, v2@, k),
        v1@[k].0@ == "deadline"@,
        v1@[k].1 == Json::Str(s),
        v2@[k].1 == Json::Number(Some(n), signed),
        decimal_of(s@) == Some(n),
    ensures
        tiered_of::<SubmitNonceResponse>(Some(Json::Object(t1)))
            == tiered_of::<SubmitNonceResponse>(Some(Json::Object(t2))),
{
    reveal_strlit("result");
    reveal_strlit("error");
    reveal_strlit("id");
    lemma_entry_of_alike(t1@, t2@, m, "result"@);
    lemma_entry_of_alike(t1@, t2@, m, "error"@);
    lemma_entry_of_alike(t1@, t2@, m, "id"@);
    assert("error"@.len() != "result"@.len());
    assert("id"@.len() != "result"@.len());
    lemma_deadline_form_keeps_result(v1, v2, k, s, n, signed);
}

fn read_result_member(j: &Json) -> (r: Option<&Json>)
    ensures
        match r {
            Some(v) => result_member(*j) == Some(*v),
            None => result_member(*j) is None,
        },
{
    match j.member("result") {
        Some(r) => match r {
            Json::Object(_) => Some(r),
            _ => None,
        },
        None => None,
    }
}

fn read_envelope<T>(j: &Json, result: Option<T>) -> (r: Option<(T, Option<String>, String)>)
    ensures
        r == envelope_of(*j, result),
{
    let error = optional_string(j, "error");
    let id = required_string(j, "id");
    match (result, error, id) {
        (Some(res), Some(e), Some(i)) => Some((res, e, i)),
        _ => None,
    }
}

impl SubmitNonceResult {
    /// Reads the result part of a submission answer.
    pub fn read(j: &Json) -> (r: Option<SubmitNonceResult>)
        ensures
            r == submit_nonce_result_of(*j),
    {
        let is_object = match j {
            Json::Object(_) => true,
            _ => false,
        };
        let accept = optional_bool(j, "accept");
        let plotid = optional_string(j, "plotid");
        let deadline = optional_str_or_int(j, "deadline");
        let target = optional_str_or_int(j, "targetdeadline");
        match (accept, plotid, deadline, target) {
            (Some(a), Some(p), Some(d), Some(t)) => if is_object {
                Some(SubmitNonceResult { accept: a, plotid: p, deadline: d, targetdeadline: t })
            } else {
                None
            },
            _ => None,
        }
    }
}

impl MiningInfoResult {
    /// Reads the result part of a mining-info answer.
    pub fn read(j: &Json) -> (r: Option<MiningInfoResult>)
        ensures
            r == mining_info_result_of(*j),
    {
        let gen_sig = required_string(j, "generationSignature");
        let base_target = required_str_or_int(j, "baseTarget");
        let height = required_str_or_int(j, "height");
        let target = match j.member("targetDeadline") {
            None => Some(default_target_deadline()),
            Some(v) => from_str_or_int(v),
        };
        match (gen_sig, base_target, height, target) {
            (Some(g), Some(b), Some(h), Some(t)) => Some(
                MiningInfoResult { generation_signature: g, base_target: b, height: h, target_deadline: t },
            ),
            _ => None,
        }
    }
}

impl FromJson for SubmitNonceResponse {
    open spec fn from_json_spec(j: Json) -> Option<Self> {
        submit_nonce_response_of(j)
    }

    fn from_json(j: &Json) -> (r: Option<Self>) {
        let result = match read_result_member(j) {
            Some(r) => SubmitNonceResult::read(r),
            None => None,
        };
        match read_envelope(j, result) {
            Some(e) => Some(SubmitNonceResponse { result: e.0, error: e.1, id: e.2 }),
            None => None,
        }
    }
}

impl FromJson for MiningInfoResponse {
    open spec fn from_json_spec(j: Json) -> Option<Self> {
        mining_info_response_of(j)
    }

    fn from_json(j: &Json) -> (r: Option<Self>) {
        let result = match read_result_member(j) {
            Some(r) => MiningInfoResult::read(r),
            None => None,
        };
        match read_envelope(j, result) {
            Some(e) => Some(MiningInfoResponse { result: e.0, error: e.1, id: e.2 }),
            None => None,
        }
    }
}

impl PoolError {
    /// Reads the pool error envelope `{"error": {"code": .., "message": ..}}`.
    pub fn read(j: &Json) -> (r: Option<PoolError>)
        ensures
            r == pool_error_of(*j),
    {
        match j.member("error") {
            Some(e) => {
                let code = required_i32(e, "code");
                let message = required_string(e, "message");
                match (code, message) {
                    (Some(c), Some(m)) => Some(PoolError { code: c, message: m }),
                    _ => None,
                }
            },
            None => None,
        }
    }
}

// ---- the three tiers ----

/// The first two tiers on a parsed document: the expected schema, else the
/// pool error envelope; none where neither applies and the body itself must
/// stand as the error.
pub open spec fn tiered_of<T: FromJson>(doc: Option<Json>) -> Option<Result<T, PoolError>> {
    match doc {
        Some(j) => if T::from_json_spec(j) is Some {
            Some(Ok(T::from_json_spec(j)->0))
        } else if pool_error_of(j) is Some {
            Some(Err(pool_error_of(j)->0))
        } else {
            None
        },
        None => None,
    }
}

/// Applies the schema, then the pool error envelope, to a parsed document.
pub fn decode_tiers<T: FromJson>(doc: &Option<Json>) -> (r: Option<Result<T, PoolError>>)
    ensures
        r == tiered_of::<T>(*doc),
{
    match doc {
        Some(j) => match T::from_json(j) {
            Some(x) => Some(Ok(x)),
            None => match PoolError::read(j) {
                Some(e) => Some(Err(e)),
                None => None,
            },
        },
        None => None,
    }
}

/// The text of a body that holds no JSON the codec knows, as the pool's
/// error message.
pub uninterp spec fn lossy_text_of(b: Seq<u8>) -> Seq<char>;

/// Relies on String::from_utf8_lossy: the bytes as UTF-8, with each invalid
/// sequence replaced; the text depends on the bytes alone, and valid UTF-8
/// comes back as the text it encodes.
#[verifier::external_body]
fn lossy_text(b: &[u8]) -> (r: String)
    ensures
        r@ == lossy_text_of(b@),
        vstd::utf8::valid_utf8(b@) ==> r@ == vstd::utf8::decode_utf8(b@),
{
    String::from_utf8_lossy(b).into_owned()
}

/// Reads a pool answer: the expected schema if the body follows it (even with
/// an `error` member set), else the pool error envelope, else the whole body
/// as the message of an error with code 0.
pub fn parse_json_result<T: FromJson>(body: &[u8]) -> (r: Result<T, PoolError>)
    ensures
        match tiered_of::<T>(json_of(body@)) {
            Some(t) => r == t,
            None => r matches Err(e) && e.code == 0 && e.message@ == lossy_text_of(body@)
                && (vstd::utf8::valid_utf8(body@) ==> e.message@ == vstd::utf8::decode_utf8(body@)),
        },
{
    let doc = parse_json(body);
    match decode_tiers::<T>(&doc) {
        Some(t) => t,
        None => Err(PoolError { code: 0, message: lossy_text(body) }),
    }
}

} // verus!
