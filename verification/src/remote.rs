//! Requests to the benefits service: what to ask for, with which
//! credentials, and how to word what goes wrong.
//!
//! The settings come as a JSON document. Nothing is sent from here: a plan
//! says where a request goes and what it carries, and the host sends it.

use crate::locator::{is_success, status_is_success, HttpStatus};
use crate::text::{concat2, trim_end_matches, without_trailing};
use serde_json::Value;
use vstd::prelude::*;

verus! {

/// A JSON value of serde_json, carried as an opaque value.
#[verifier::external_type_specification]
#[verifier::external_body]
pub struct ExJsonValue(Value);

/// The member `key` of the JSON object `v`; `None` when `v` is no object or
/// has no such member.
pub uninterp spec fn json_member(v: Value, key: Seq<char>) -> Option<Value>;

/// The text of the JSON string `v`; `None` when `v` is no string.
pub uninterp spec fn json_text(v: Value) -> Option<Seq<char>>;

/// Whether `v` is a JSON array.
pub uninterp spec fn json_is_array(v: Value) -> bool;

/// Calls `serde_json::Value::get` with a string key, which looks the key up
/// when the value is an object and gives nothing otherwise.
#[verifier::external_body]
fn member<'a>(v: &'a Value, key: &str) -> (r: Option<&'a Value>)
    ensures
        match r {
            Some(found) => json_member(*v, key@) == Some(*found),
            None => json_member(*v, key@) is None,
        },
{
    v.get(key)
}

/// Calls `serde_json::Value::as_str`, which gives the text of a string and
/// nothing for any other value.
#[verifier::external_body]
fn as_text<'a>(v: &'a Value) -> (r: Option<&'a str>)
    ensures
        match r {
            Some(text) => json_text(*v) == Some(text@),
            None => json_text(*v) is None,
        },
{
    v.as_str()
}

/// Calls `serde_json::Value::is_array`.
#[verifier::external_body]
fn is_array(v: &Value) -> (r: bool)
    ensures
        r == json_is_array(*v),
{
    v.is_array()
}

/// The section of the settings that holds the service's settings: the
/// member `importer_config` where there is one, else the document itself.
pub open spec fn cfg_of(root: Value) -> Value {
    match json_member(root, "importer_config"@) {
        Some(section) => section,
        None => root,
    }
}

/// The setting `key`: the text of that member, if it is there and is a text.
pub open spec fn setting_of(cfg: Value, key: Seq<char>) -> Option<Seq<char>> {
    match json_member(cfg, key) {
        Some(v) => json_text(v),
        None => None,
    }
}

/// Finds the section of the settings that holds the service's settings.
pub fn get_cfg<'a>(root: &'a Value) -> (r: Result<&'a Value, String>)
    ensures
        r matches Ok(cfg) && *cfg == cfg_of(*root),
{
    match member(root, "importer_config") {
        Some(section) => Ok(section),
        None => Ok(root),
    }
}

/// Reads the setting `key`.
pub fn setting(cfg: &Value, key: &str) -> (r: Option<String>)
    ensures
        match setting_of(*cfg, key@) {
            Some(text) => r matches Some(t) && t@ == text,
            None => r is None,
        },
{
    match member(cfg, key) {
        Some(v) => match as_text(v) {
            Some(text) => Some(text.to_string()),
            None => None,
        },
        None => None,
    }
}

/// The member `items` of a reply, if there is one. A host answers with an
/// empty list when there is none.
pub fn search_items<'a>(reply: &'a Value) -> (r: Option<&'a Value>)
    ensures
        match r {
            Some(items) => json_member(*reply, "items"@) == Some(*items),
            None => json_member(*reply, "items"@) is None,
        },
{
    member(reply, "items")
}

/// The member `items` of a reply, if there is one and it is an array. A host
/// answers with an empty list when there is none.
pub fn fingerprint_items<'a>(reply: &'a Value) -> (r: Option<&'a Value>)
    ensures
        match json_member(*reply, "items"@) {
            Some(items) => if json_is_array(items) {
                r matches Some(found) && *found == items
            } else {
                r is None
            },
            None => r is None,
        },
{
    match member(reply, "items") {
        Some(items) => if is_array(items) {
            Some(items)
        } else {
            None
        },
        None => None,
    }
}

/// What a search for beneficiaries may be narrowed by.
#[derive(Debug, Clone, PartialEq, Eq)]
pub struct BeneficiarySearchParams {
    pub guarantor: String,
    pub modality: Option<String>,
    pub proposal: Option<String>,
    pub contract: Option<String>,
}

/// A request that is ready to be sent with HTTP GET and basic authentication.
#[derive(Debug, Clone, PartialEq, Eq)]
pub struct RequestPlan {
    pub url: String,
    pub user: String,
    pub password: String,
    pub query: Vec<(String, String)>,
    pub headers: Vec<(String, String)>,
}

/// `BeneficiarySearchParams` as the contracts see it.
pub struct BeneficiarySearchParamsView {
    pub guarantor: Seq<char>,
    pub modality: Option<Seq<char>>,
    pub proposal: Option<Seq<char>>,
    pub contract: Option<Seq<char>>,
}

/// `RequestPlan` as the contracts see it.
pub struct RequestPlanView {
    pub url: Seq<char>,
    pub user: Seq<char>,
    pub password: Seq<char>,
    pub query: Seq<(Seq<char>, Seq<char>)>,
    pub headers: Seq<(Seq<char>, Seq<char>)>,
}

impl View for BeneficiarySearchParams {
    type V = BeneficiarySearchParamsView;

    open spec fn view(&self) -> BeneficiarySearchParamsView {
        BeneficiarySearchParamsView {
            guarantor: self.guarantor@,
            modality: self.modality.deep_view(),
            proposal: self.proposal.deep_view(),
            contract: self.contract.deep_view(),
        }
    }
}

impl View for RequestPlan {
    type V = RequestPlanView;

    open spec fn view(&self) -> RequestPlanView {
        RequestPlanView {
            url: self.url@,
            user: self.user@,
            password: self.password@,
            query: self.query.deep_view(),
            headers: self.headers.deep_view(),
        }
    }
}

/// The path of the search for beneficiaries.
pub open spec fn search_endpoint() -> Seq<char> {
    "/dts/datasul-rest/resources/prg/hvp/v2/beneficiaries/subscriber"@
}

/// The path of a beneficiary's check-in record.
pub open spec fn beneficiary_endpoint(card_number: Seq<char>) -> Seq<char> {
    "/dts/datasul-rest/resources/prg/portprest/v1/checkin/beneficiaries/"@ + card_number
}

/// What a search always asks to be expanded.
pub open spec fn search_expansion() -> Seq<char> {
    "person,dependents,dependents.person,cancellationReason,dependents.cancellationReason"@
}

/// `base` and `endpoint` as one URL, with no slash doubled between them.
pub open spec fn url_of(base: Seq<char>, endpoint: Seq<char>) -> Seq<char> {
    without_trailing(base, '/') + endpoint
}

/// The refusal of a document of settings that could not be read.
pub open spec fn settings_failure(e: Seq<char>) -> Seq<char> {
    "Falha ao ler configurações: "@ + e
}

/// The settings of the service, each as it was found.
#[derive(Debug, Clone, PartialEq, Eq)]
pub struct ImporterSettings {
    pub base_url: Option<String>,
    pub user: Option<String>,
    pub password: Option<String>,
    pub clinic: Option<String>,
    pub provider_code: Option<String>,
    pub health_insurer_code: Option<String>,
}

/// `ImporterSettings` as the contracts see it.
pub struct ImporterSettingsView {
    pub base_url: Option<Seq<char>>,
    pub user: Option<Seq<char>>,
    pub password: Option<Seq<char>>,
    pub clinic: Option<Seq<char>>,
    pub provider_code: Option<Seq<char>>,
    pub health_insurer_code: Option<Seq<char>>,
}

impl View for ImporterSettings {
    type V = ImporterSettingsView;

    open spec fn view(&self) -> ImporterSettingsView {
        ImporterSettingsView {
            base_url: self.base_url.deep_view(),
            user: self.user.deep_view(),
            password: self.password.deep_view(),
            clinic: self.clinic.deep_view(),
            provider_code: self.provider_code.deep_view(),
            health_insurer_code: self.health_insurer_code.deep_view(),
        }
    }
}

/// The settings that the section `cfg` holds.
pub open spec fn settings_of(cfg: Value) -> ImporterSettingsView {
    ImporterSettingsView {
        base_url: setting_of(cfg, "base_url"@),
        user: setting_of(cfg, "user"@),
        password: setting_of(cfg, "password"@),
        clinic: setting_of(cfg, "clinic"@),
        provider_code: setting_of(cfg, "provider_code"@),
        health_insurer_code: setting_of(cfg, "health_insurer_code"@),
    }
}

/// The setting that a request needs first and does not find, by the wording
/// of its refusal; `None` when every needed setting is there. A search needs
/// address, user and password; a request about one beneficiary needs the
/// clinic, the provider and the insurer as well.
pub open spec fn missing_setting(settings: ImporterSettingsView, one_beneficiary: bool) -> Option<
    Seq<char>,
> {
    if settings.base_url is None {
        Some("Base URL não definida nas configurações."@)
    } else if settings.user is None {
        Some("Usuário não definido nas configurações."@)
    } else if settings.password is None {
        Some("Senha não definida nas configurações."@)
    } else if !one_beneficiary {
        None
    } else if settings.clinic is None {
        Some("Clínica não definida nas configurações."@)
    } else if settings.provider_code is None {
        Some("Código do prestador não definido nas configurações."@)
    } else if settings.health_insurer_code is None {
        Some("Código da operadora não definido nas configurações."@)
    } else {
        None
    }
}

/// One narrowing of a search, if it is asked for.
pub open spec fn narrowing(key: Seq<char>, value: Option<Seq<char>>) -> Seq<(Seq<char>, Seq<char>)> {
    match value {
        Some(v) => seq![(key, v)],
        None => Seq::empty(),
    }
}

/// The query of a search.
pub open spec fn search_query(params: BeneficiarySearchParamsView) -> Seq<(Seq<char>, Seq<char>)> {
    seq![
        ("includeActive"@, "true"@),
        ("includeInactive"@, "false"@),
        ("includePending"@, "true"@),
        ("guarantor"@, params.guarantor),
        ("page"@, "1"@),
        ("expand"@, search_expansion()),
    ] + narrowing("modality"@, params.modality) + narrowing("proposal"@, params.proposal)
        + narrowing("contract"@, params.contract)
}

/// The plan of a search; the settings that it needs are there.
pub open spec fn search_plan(
    settings: ImporterSettingsView,
    params: BeneficiarySearchParamsView,
) -> RequestPlanView {
    RequestPlanView {
        url: url_of(settings.base_url->0, search_endpoint()),
        user: settings.user->0,
        password: settings.password->0,
        query: search_query(params),
        headers: seq![("Accept"@, "application/json"@)],
    }
}

/// The plan of a request about one beneficiary, `suffix` naming what is
/// asked of the record; the settings that it needs are there.
pub open spec fn beneficiary_plan(
    settings: ImporterSettingsView,
    card_number: Seq<char>,
    suffix: Seq<char>,
) -> RequestPlanView {
    let clinic = settings.clinic->0;
    RequestPlanView {
        url: url_of(settings.base_url->0, beneficiary_endpoint(card_number) + suffix),
        user: settings.user->0,
        password: settings.password->0,
        query: seq![
            ("provider"@, settings.provider_code->0),
            ("providerHealthInsurer"@, settings.health_insurer_code->0),
            ("clinic"@, clinic),
        ],
        headers: seq![
            ("Accept"@, "application/json"@),
            ("x-totvs-hgp-portal-prestador-clinic"@, clinic),
        ],
    }
}

/// What planning a search owes: the refusal for the first missing setting,
/// else the plan.
pub open spec fn search_outcome(
    settings: ImporterSettingsView,
    params: BeneficiarySearchParamsView,
) -> Result<RequestPlanView, Seq<char>> {
    match missing_setting(settings, false) {
        Some(refusal) => Err(refusal),
        None => Ok(search_plan(settings, params)),
    }
}

/// What planning a request about one beneficiary owes: the refusal for the
/// first missing setting, else the plan.
pub open spec fn beneficiary_outcome(
    settings: ImporterSettingsView,
    card_number: Seq<char>,
    suffix: Seq<char>,
) -> Result<RequestPlanView, Seq<char>> {
    match missing_setting(settings, true) {
        Some(refusal) => Err(refusal),
        None => Ok(beneficiary_plan(settings, card_number, suffix)),
    }
}

/// What a request function owes for the settings document `config`: the
/// refusal of a document that could not be read, else what `outcome` tells
/// for the settings in its section.
pub open spec fn from_document(
    config: Result<&Value, String>,
    outcome: spec_fn(ImporterSettingsView) -> Result<RequestPlanView, Seq<char>>,
) -> Result<RequestPlanView, Seq<char>> {
    match config {
        Err(e) => Err(settings_failure(e@)),
        Ok(root) => outcome(settings_of(cfg_of(*root))),
    }
}

/// A planning result as the contracts see it.
pub open spec fn plan_result(r: Result<RequestPlan, String>) -> Result<RequestPlanView, Seq<char>> {
    match r {
        Ok(plan) => Ok(plan@),
        Err(e) => Err(e@),
    }
}

fn pair(key: &str, value: &str) -> (p: (String, String))
    ensures
        p.deep_view() == (key@, value@),
{
    (key.to_string(), value.to_string())
}

fn push_narrowing(query: &mut Vec<(String, String)>, key: &str, value: &Option<String>)
    ensures
        final(query).deep_view() == old(query).deep_view() + narrowing(key@, value.deep_view()),
{
    if let Some(v) = value {
        query.push(pair(key, v.as_str()));
    }
}

fn url(base: &str, endpoint: &str) -> (r: String)
    ensures
        r@ == url_of(base@, endpoint@),
{
    let mut r = trim_end_matches(base, '/');
    r.append(endpoint);
    r
}

/// Reads the settings of the service from their section.
pub fn read_settings(cfg: &Value) -> (settings: ImporterSettings)
    ensures
        settings@ == settings_of(*cfg),
{
    ImporterSettings {
        base_url: setting(cfg, "base_url"),
        user: setting(cfg, "user"),
        password: setting(cfg, "password"),
        clinic: setting(cfg, "clinic"),
        provider_code: setting(cfg, "provider_code"),
        health_insurer_code: setting(cfg, "health_insurer_code"),
    }
}

/// Plans a search with settings that have been read.
pub fn plan_search(settings: &ImporterSettings, params: &BeneficiarySearchParams) -> (r: Result<
    RequestPlan,
    String,
>)
    ensures
        plan_result(r) == search_outcome(settings@, params@),
{
    let base_url = match &settings.base_url {
        Some(v) => v,
        None => {
            return Err("Base URL não definida nas configurações.".to_string());
        },
    };
    let user = match &settings.user {
        Some(v) => v,
        None => {
            return Err("Usuário não definido nas configurações.".to_string());
        },
    };
    let password = match &settings.password {
        Some(v) => v,
        None => {
            return Err("Senha não definida nas configurações.".to_string());
        },
    };
    let mut query: Vec<(String, String)> = Vec::new();
    query.push(pair("includeActive", "true"));
    query.push(pair("includeInactive", "false"));
    query.push(pair("includePending", "true"));
    query.push(pair("guarantor", params.guarantor.as_str()));
    query.push(pair("page", "1"));
    query.push(
        pair(
            "expand",
            "person,dependents,dependents.person,cancellationReason,dependents.cancellationReason",
        ),
    );
    proof {
        assert(query.deep_view() =~= seq![
            ("includeActive"@, "true"@),
            ("includeInactive"@, "false"@),
            ("includePending"@, "true"@),
            ("guarantor"@, params@.guarantor),
            ("page"@, "1"@),
            ("expand"@, search_expansion()),
        ]);
    }
    push_narrowing(&mut query, "modality", &params.modality);
    push_narrowing(&mut query, "proposal", &params.proposal);
    push_narrowing(&mut query, "contract", &params.contract);
    let mut headers: Vec<(String, String)> = Vec::new();
    headers.push(pair("Accept", "application/json"));
    let plan = RequestPlan {
        url: url(
            base_url.as_str(),
            "/dts/datasul-rest/resources/prg/hvp/v2/beneficiaries/subscriber",
        ),
        user: user.clone(),
        password: password.clone(),
        query,
        headers,
    };
    proof {
        let want = search_plan(settings@, params@);
        assert(plan@.headers =~= want.headers);
    }
    Ok(plan)
}

/// Plans a request about one beneficiary with settings that have been read.
/// `suffix` names what is asked of the record: nothing for the record
/// itself, `/fingerPrints`, `/photo`.
pub fn plan_beneficiary_request(settings: &ImporterSettings, card_number: &str, suffix: &str) -> (r:
    Result<RequestPlan, String>)
    ensures
        plan_result(r) == beneficiary_outcome(settings@, card_number@, suffix@),
{
    let base_url = match &settings.base_url {
        Some(v) => v,
        None => {
            return Err("Base URL não definida nas configurações.".to_string());
        },
    };
    let user = match &settings.user {
        Some(v) => v,
        None => {
            return Err("Usuário não definido nas configurações.".to_string());
        },
    };
    let password = match &settings.password {
        Some(v) => v,
        None => {
            return Err("Senha não definida nas configurações.".to_string());
        },
    };
    let clinic = match &settings.clinic {
        Some(v) => v,
        None => {
            return Err("Clínica não definida nas configurações.".to_string());
        },
    };
    let provider_code = match &settings.provider_code {
        Some(v) => v,
        None => {
            return Err("Código do prestador não definido nas configurações.".to_string());
        },
    };
    let health_insurer_code = match &settings.health_insurer_code {
        Some(v) => v,
        None => {
            return Err("Código da operadora não definido nas configurações.".to_string());
        },
    };
    let mut endpoint = concat2(
        "/dts/datasul-rest/resources/prg/portprest/v1/checkin/beneficiaries/",
        card_number,
    );
    endpoint.append(suffix);
    let mut query: Vec<(String, String)> = Vec::new();
    query.push(pair("provider", provider_code.as_str()));
    query.push(pair("providerHealthInsurer", health_insurer_code.as_str()));
    query.push(pair("clinic", clinic.as_str()));
    let mut headers: Vec<(String, String)> = Vec::new();
    headers.push(pair("Accept", "application/json"));
    headers.push(pair("x-totvs-hgp-portal-prestador-clinic", clinic.as_str()));
    let plan = RequestPlan {
        url: url(base_url.as_str(), endpoint.as_str()),
        user: user.clone(),
        password: password.clone(),
        query,
        headers,
    };
    proof {
        let want = beneficiary_plan(settings@, card_number@, suffix@);
        assert(plan@.query =~= want.query);
        assert(plan@.headers =~= want.headers);
    }
    Ok(plan)
}

fn settings_in(config: Result<&Value, String>) -> (r: Result<ImporterSettings, String>)
    ensures
        match config {
            Err(e) => r matches Err(text) && text@ == settings_failure(e@),
            Ok(root) => r matches Ok(settings) && settings@ == settings_of(cfg_of(*root)),
        },
{
    let root = match config {
        Ok(root) => root,
        Err(e) => {
            return Err(concat2("Falha ao ler configurações: ", e.as_str()));
        },
    };
    match get_cfg(root) {
        Ok(cfg) => Ok(read_settings(cfg)),
        Err(e) => Err(e),
    }
}

/// Plans the search for the beneficiaries of a guarantor.
pub fn search_beneficiaries(config: Result<&Value, String>, params: &BeneficiarySearchParams) -> (r:
    Result<RequestPlan, String>)
    ensures
        plan_result(r) == from_document(
            config,
            |settings: ImporterSettingsView| search_outcome(settings, params@),
        ),
{
    match settings_in(config) {
        Ok(settings) => plan_search(&settings, params),
        Err(e) => Err(e),
    }
}

/// Plans the request for the check-in record of one beneficiary.
pub fn get_beneficiary_details(config: Result<&Value, String>, card_number: &str) -> (r: Result<
    RequestPlan,
    String,
>)
    ensures
        plan_result(r) == from_document(
            config,
            |settings: ImporterSettingsView| beneficiary_outcome(settings, card_number@, ""@),
        ),
{
    match settings_in(config) {
        Ok(settings) => plan_beneficiary_request(&settings, card_number, ""),
        Err(e) => Err(e),
    }
}

/// Plans the request for the fingerprints of one beneficiary.
pub fn get_fingerprints(config: Result<&Value, String>, card_number: &str) -> (r: Result<
    RequestPlan,
    String,
>)
    ensures
        plan_result(r) == from_document(
            config,
            |settings: ImporterSettingsView|
                beneficiary_outcome(settings, card_number@, "/fingerPrints"@),
        ),
{
    match settings_in(config) {
        Ok(settings) => plan_beneficiary_request(&settings, card_number, "/fingerPrints"),
        Err(e) => Err(e),
    }
}

/// Plans the request for the photograph of one beneficiary.
pub fn get_facial_biometry(config: Result<&Value, String>, card_number: &str) -> (r: Result<
    RequestPlan,
    String,
>)
    ensures
        plan_result(r) == from_document(
            config,
            |settings: ImporterSettingsView| beneficiary_outcome(settings, card_number@, "/photo"@),
        ),
{
    match settings_in(config) {
        Ok(settings) => plan_beneficiary_request(&settings, card_number, "/photo"),
        Err(e) => Err(e),
    }
}

/// The wording of a request that could not be sent.
pub fn send_failure(e: &str) -> (text: String)
    ensures
        text@ == "Erro na requisição: "@ + e@,
{
    concat2("Erro na requisição: ", e)
}

/// The wording of a reply that is no JSON.
pub fn decode_failure(e: &str) -> (text: String)
    ensures
        text@ == "Falha ao decodificar JSON: "@ + e@,
{
    concat2("Falha ao decodificar JSON: ", e)
}

/// The wording of a photograph that could not be read from the reply.
pub fn photo_failure(e: &str) -> (text: String)
    ensures
        text@ == "Falha ao obter dados da foto: "@ + e@,
{
    concat2("Falha ao obter dados da foto: ", e)
}

/// Accepts a reply whose status tells success and refuses every other with
/// its status line.
pub fn check_status(status: &HttpStatus) -> (r: Result<(), String>)
    ensures
        if is_success(status.code) {
            r is Ok
        } else {
            r matches Err(text) && text@ == "Falha na requisição: "@ + status.line@
        },
{
    if status_is_success(status.code) {
        Ok(())
    } else {
        Err(concat2("Falha na requisição: ", status.line.as_str()))
    }
}

} // verus!
