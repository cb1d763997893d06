//! Records served by the callrx-service API, and the decisions made around
//! each request: which resource to ask for, what a status code means, and
//! how a device-login poll ends.

use vstd::prelude::*;
use crate::text::{dec, decimal_string, char_text, str_eq};

verus! {

/// The characters of an optional text field.
pub open spec fn opt_text(o: Option<String>) -> Option<Seq<char>> {
    match o {
        Some(s) => Some(s@),
        None => None,
    }
}

/// The em dash shown where a value is absent.
pub open spec fn dash() -> Seq<char> {
    seq!['\u{2014}']
}

// ── Address ──────────────────────────────────────────────────────────────────

/// Mailing address of a licensee. (The ZIP-centroid coordinates the service
/// also returns are floating point and are kept by the application.)
#[derive(Debug)]
pub struct AddressInfo {
    pub street: Option<String>,
    pub city: Option<String>,
    pub state: Option<String>,
    pub zip_code: Option<String>,
    pub po_box: Option<String>,
}

pub struct AddressView {
    pub street: Option<Seq<char>>,
    pub city: Option<Seq<char>>,
    pub state: Option<Seq<char>>,
    pub zip_code: Option<Seq<char>>,
    pub po_box: Option<Seq<char>>,
}

impl View for AddressInfo {
    type V = AddressView;

    open spec fn view(&self) -> AddressView {
        AddressView {
            street: opt_text(self.street),
            city: opt_text(self.city),
            state: opt_text(self.state),
            zip_code: opt_text(self.zip_code),
            po_box: opt_text(self.po_box),
        }
    }
}

pub open spec fn empty_address() -> AddressView {
    AddressView { street: None, city: None, state: None, zip_code: None, po_box: None }
}

impl Default for AddressInfo {
    fn default() -> (res: Self)
        ensures
            res@ == empty_address(),
    {
        AddressInfo { street: None, city: None, state: None, zip_code: None, po_box: None }
    }
}

impl Clone for AddressInfo {
    fn clone(&self) -> (res: Self)
        ensures
            res@ == self@,
    {
        AddressInfo {
            street: self.street.clone(),
            city: self.city.clone(),
            state: self.state.clone(),
            zip_code: self.zip_code.clone(),
            po_box: self.po_box.clone(),
        }
    }
}

// ── Summaries ────────────────────────────────────────────────────────────────

/// Compact record used for FRN siblings and neighbors.
#[derive(Debug)]
pub struct CallsignSummary {
    pub unique_system_identifier: Option<i64>,
    pub call_sign: Option<String>,
    pub display_name: String,
    pub license_status_label: String,
    pub license_type: Option<String>,
    pub operator_class_label: Option<String>,
    pub city: Option<String>,
    pub state: Option<String>,
    pub service: Option<String>,
    pub service_label: Option<String>,
}

pub struct SummaryView {
    pub unique_system_identifier: Option<i64>,
    pub call_sign: Option<Seq<char>>,
    pub display_name: Seq<char>,
    pub license_status_label: Seq<char>,
    pub license_type: Option<Seq<char>>,
    pub operator_class_label: Option<Seq<char>>,
    pub city: Option<Seq<char>>,
    pub state: Option<Seq<char>>,
    pub service: Option<Seq<char>>,
    pub service_label: Option<Seq<char>>,
}

impl View for CallsignSummary {
    type V = SummaryView;

    open spec fn view(&self) -> SummaryView {
        SummaryView {
            unique_system_identifier: self.unique_system_identifier,
            call_sign: opt_text(self.call_sign),
            display_name: self.display_name@,
            license_status_label: self.license_status_label@,
            license_type: opt_text(self.license_type),
            operator_class_label: opt_text(self.operator_class_label),
            city: opt_text(self.city),
            state: opt_text(self.state),
            service: opt_text(self.service),
            service_label: opt_text(self.service_label),
        }
    }
}

/// A [`CallsignSummary`] plus the street address, used in neighbors results.
#[derive(Debug)]
pub struct NeighborSummary {
    pub unique_system_identifier: Option<i64>,
    pub call_sign: Option<String>,
    pub display_name: String,
    pub license_status_label: String,
    pub license_type: Option<String>,
    pub operator_class_label: Option<String>,
    pub city: Option<String>,
    pub state: Option<String>,
    pub service: Option<String>,
    pub service_label: Option<String>,
    pub street_address: Option<String>,
}

/// Other active licensees near a callsign's mailing address.
#[derive(Debug)]
pub struct NeighborsResponse {
    pub call_sign: String,
    pub address_count: i64,
    pub address_results: Vec<NeighborSummary>,
    pub street_count: i64,
    pub street_results: Vec<NeighborSummary>,
}

/// Local time at a licensee's mailing address.
#[derive(Debug)]
pub struct LocationTimeInfo {
    pub local_time: Option<String>,
    pub utc_time: Option<String>,
    pub timezone: Option<String>,
    pub utc_offset_seconds: Option<i64>,
}

/// A single active NWS weather alert covering the licensee's location.
#[derive(Debug)]
pub struct WeatherAlert {
    pub event: Option<String>,
    /// NWS severity: `Extreme`, `Severe`, `Moderate`, `Minor`, or `Unknown`.
    pub severity: Option<String>,
    pub urgency: Option<String>,
    pub headline: Option<String>,
    pub effective: Option<String>,
    pub expires: Option<String>,
    pub area_desc: Option<String>,
}

// ── The callsign record ──────────────────────────────────────────────────────

/// A callsign license record from the callrx-service API.
#[derive(Debug)]
pub struct CallsignRecord {
    pub unique_system_identifier: Option<i64>,
    pub call_sign: Option<String>,
    pub display_name: String,
    /// `Individual` or `Club`.
    pub license_type: Option<String>,
    /// FCC status code: `A`, `C`, `E`, `T`, `L`.
    pub license_status: String,
    /// Human-readable status, e.g. `Active`, `Expired`.
    pub license_status_label: String,
    pub operator_class: Option<String>,
    pub operator_class_label: Option<String>,
    pub group_code: Option<String>,
    pub region_code: Option<String>,
    pub previous_callsign: Option<String>,
    pub previous_operator_class: Option<String>,
    pub previous_operator_class_label: Option<String>,
    pub trustee_callsign: Option<String>,
    pub trustee_name: Option<String>,
    pub vanity_call_sign_change: Option<String>,
    pub vanity_relationship: Option<String>,
    pub address: AddressInfo,
    pub email: Option<String>,
    pub phone: Option<String>,
    pub frn: Option<String>,
    /// ISO 8601 dates (`YYYY-MM-DD`).
    pub grant_date: Option<String>,
    pub expired_date: Option<String>,
    pub cancellation_date: Option<String>,
    pub effective_date: Option<String>,
    pub last_action_date: Option<String>,
    pub uls_url: Option<String>,
    /// Radio service code: `A`=Amateur Radio, `G`=GMRS.
    pub service: Option<String>,
    pub service_label: Option<String>,
    /// Other licenses held by the same FCC registrant (same FRN).
    pub frn_licenses: Option<Vec<CallsignSummary>>,
}

pub struct RecordView {
    pub unique_system_identifier: Option<i64>,
    pub call_sign: Option<Seq<char>>,
    pub display_name: Seq<char>,
    pub license_type: Option<Seq<char>>,
    pub license_status: Seq<char>,
    pub license_status_label: Seq<char>,
    pub operator_class: Option<Seq<char>>,
    pub operator_class_label: Option<Seq<char>>,
    pub group_code: Option<Seq<char>>,
    pub region_code: Option<Seq<char>>,
    pub previous_callsign: Option<Seq<char>>,
    pub previous_operator_class: Option<Seq<char>>,
    pub previous_operator_class_label: Option<Seq<char>>,
    pub trustee_callsign: Option<Seq<char>>,
    pub trustee_name: Option<Seq<char>>,
    pub vanity_call_sign_change: Option<Seq<char>>,
    pub vanity_relationship: Option<Seq<char>>,
    pub address: AddressView,
    pub email: Option<Seq<char>>,
    pub phone: Option<Seq<char>>,
    pub frn: Option<Seq<char>>,
    pub grant_date: Option<Seq<char>>,
    pub expired_date: Option<Seq<char>>,
    pub cancellation_date: Option<Seq<char>>,
    pub effective_date: Option<Seq<char>>,
    pub last_action_date: Option<Seq<char>>,
    pub uls_url: Option<Seq<char>>,
    pub service: Option<Seq<char>>,
    pub service_label: Option<Seq<char>>,
    pub frn_licenses: Option<Seq<SummaryView>>,
}

impl View for CallsignRecord {
    type V = RecordView;

    open spec fn view(&self) -> RecordView {
        RecordView {
            unique_system_identifier: self.unique_system_identifier,
            call_sign: opt_text(self.call_sign),
            display_name: self.display_name@,
            license_type: opt_text(self.license_type),
            license_status: self.license_status@,
            license_status_label: self.license_status_label@,
            operator_class: opt_text(self.operator_class),
            operator_class_label: opt_text(self.operator_class_label),
            group_code: opt_text(self.group_code),
            region_code: opt_text(self.region_code),
            previous_callsign: opt_text(self.previous_callsign),
            previous_operator_class: opt_text(self.previous_operator_class),
            previous_operator_class_label: opt_text(self.previous_operator_class_label),
            trustee_callsign: opt_text(self.trustee_callsign),
            trustee_name: opt_text(self.trustee_name),
            vanity_call_sign_change: opt_text(self.vanity_call_sign_change),
            vanity_relationship: opt_text(self.vanity_relationship),
            address: self.address@,
            email: opt_text(self.email),
            phone: opt_text(self.phone),
            frn: opt_text(self.frn),
            grant_date: opt_text(self.grant_date),
            expired_date: opt_text(self.expired_date),
            cancellation_date: opt_text(self.cancellation_date),
            effective_date: opt_text(self.effective_date),
            last_action_date: opt_text(self.last_action_date),
            uls_url: opt_text(self.uls_url),
            service: opt_text(self.service),
            service_label: opt_text(self.service_label),
            frn_licenses: match self.frn_licenses {
                Some(v) => Some(v@.map_values(|s: CallsignSummary| s@)),
                None => None,
            },
        }
    }
}

/// A record with every optional field absent and every required text empty.
pub open spec fn empty_record() -> RecordView {
    RecordView {
        unique_system_identifier: None,
        call_sign: None,
        display_name: Seq::empty(),
        license_type: None,
        license_status: Seq::empty(),
        license_status_label: Seq::empty(),
        operator_class: None,
        operator_class_label: None,
        group_code: None,
        region_code: None,
        previous_callsign: None,
        previous_operator_class: None,
        previous_operator_class_label: None,
        trustee_callsign: None,
        trustee_name: None,
        vanity_call_sign_change: None,
        vanity_relationship: None,
        address: empty_address(),
        email: None,
        phone: None,
        frn: None,
        grant_date: None,
        expired_date: None,
        cancellation_date: None,
        effective_date: None,
        last_action_date: None,
        uls_url: None,
        service: None,
        service_label: None,
        frn_licenses: None,
    }
}

impl Default for CallsignRecord {
    fn default() -> (res: Self)
        ensures
            res@ == empty_record(),
    {
        CallsignRecord {
            unique_system_identifier: None,
            call_sign: None,
            display_name: String::new(),
            license_type: None,
            license_status: String::new(),
            license_status_label: String::new(),
            operator_class: None,
            operator_class_label: None,
            group_code: None,
            region_code: None,
            previous_callsign: None,
            previous_operator_class: None,
            previous_operator_class_label: None,
            trustee_callsign: None,
            trustee_name: None,
            vanity_call_sign_change: None,
            vanity_relationship: None,
            address: AddressInfo::default(),
            email: None,
            phone: None,
            frn: None,
            grant_date: None,
            expired_date: None,
            cancellation_date: None,
            effective_date: None,
            last_action_date: None,
            uls_url: None,
            service: None,
            service_label: None,
            frn_licenses: None,
        }
    }
}

/// The callsign a record is shown and cached under: its own, or `—`.
pub open spec fn record_callsign(r: RecordView) -> Seq<char> {
    match r.call_sign {
        Some(c) => c,
        None => dash(),
    }
}

/// The license class shown for a record: the service's label, or `—`.
pub open spec fn class_label(r: RecordView) -> Seq<char> {
    match r.operator_class_label {
        Some(c) => c,
        None => dash(),
    }
}

impl CallsignRecord {
    /// Returns the canonical callsign from the record (`—` when absent).
    pub fn callsign(&self) -> (res: &str)
        ensures
            res@ == record_callsign(self@),
    {
        match &self.call_sign {
            Some(c) => c.as_str(),
            None => {
                proof {
                    reveal_strlit("\u{2014}");
                }
                "\u{2014}"
            },
        }
    }

    /// Returns the human-readable license class verbatim, or `—` when absent
    /// (club licenses have a trustee instead of an operator class).
    pub fn license_class_label(&self) -> (res: &str)
        ensures
            res@ == class_label(self@),
    {
        match &self.operator_class_label {
            Some(c) => c.as_str(),
            None => {
                proof {
                    reveal_strlit("\u{2014}");
                }
                "\u{2014}"
            },
        }
    }

    /// Returns true if the license is expired, per the FCC status code `E`.
    pub fn is_expired(&self) -> (res: bool)
        ensures
            res == (self@.license_status == seq!['E']),
    {
        let expired_code = "E";
        proof {
            reveal_strlit("E");
            assert(expired_code@ =~= seq!['E']);
        }
        str_eq(self.license_status.as_str(), expired_code)
    }
}

// ── Grid square ──────────────────────────────────────────────────────────────

/// The 6-character Maidenhead locator of the given cells: field letters
/// from `A`, square digits, subsquare letters from `a` (longitude first).
pub open spec fn locator_text(field_lon: u8, field_lat: u8, square_lon: u8, square_lat: u8, sub_lon: u8, sub_lat: u8) -> Seq<char> {
    seq![(65 + field_lon) as char, (65 + field_lat) as char] + dec(square_lon as nat) + dec(square_lat as nat)
        + seq![(97 + sub_lon) as char, (97 + sub_lat) as char]
}

/// Writes the Maidenhead locator of a position already split into its
/// field, square and subsquare cells.
pub fn grid_locator(field_lon: u8, field_lat: u8, square_lon: u8, square_lat: u8, sub_lon: u8, sub_lat: u8) -> (res: String)
    requires
        field_lon <= 190,
        field_lat <= 190,
        sub_lon <= 158,
        sub_lat <= 158,
    ensures
        res@ == locator_text(field_lon, field_lat, square_lon, square_lat, sub_lon, sub_lat),
        square_lon < 10 && square_lat < 10 ==> res@.len() == 6,
{
    let mut res = char_text((65u8 + field_lon) as char);
    let c1 = char_text((65u8 + field_lat) as char);
    res.append(c1.as_str());
    let d1 = decimal_string(square_lon as u64);
    res.append(d1.as_str());
    let d2 = decimal_string(square_lat as u64);
    res.append(d2.as_str());
    let c2 = char_text((97u8 + sub_lon) as char);
    res.append(c2.as_str());
    let c3 = char_text((97u8 + sub_lat) as char);
    res.append(c3.as_str());
    assert(res@ =~= locator_text(field_lon, field_lat, square_lon, square_lat, sub_lon, sub_lat));
    res
}

// ── Requests ─────────────────────────────────────────────────────────────────

/// A request to the service: the path under the base URL, and the message
/// that a 404 answer to it means.
#[derive(Debug)]
pub struct ApiRequest {
    pub path: String,
    pub not_found: String,
}

/// What a 404 for a callsign's resources means.
pub open spec fn callsign_not_found(callsign: Seq<char>) -> Seq<char> {
    "Callsign '"@ + callsign + "' was not found in the FCC ULS database."@
}

fn callsign_not_found_text(callsign: &str) -> (res: String)
    ensures
        res@ == callsign_not_found(callsign@),
{
    let mut res = String::from_str("Callsign '");
    res.append(callsign);
    res.append("' was not found in the FCC ULS database.");
    res
}

/// The request for a callsign's license record.
pub fn callsign_request(callsign: &str) -> (res: ApiRequest)
    ensures
        res.path@ == "/callsign/"@ + callsign@,
        res.not_found@ == callsign_not_found(callsign@),
{
    let mut path = String::from_str("/callsign/");
    path.append(callsign);
    ApiRequest { path, not_found: callsign_not_found_text(callsign) }
}

/// The request for the licensees near a callsign's mailing address.
pub fn neighbors_request(callsign: &str) -> (res: ApiRequest)
    ensures
        res.path@ == "/callsign/"@ + callsign@ + "/neighbors"@,
        res.not_found@ == callsign_not_found(callsign@),
{
    let mut path = String::from_str("/callsign/");
    path.append(callsign);
    path.append("/neighbors");
    ApiRequest { path, not_found: callsign_not_found_text(callsign) }
}

/// The request for local time and weather at a callsign's mailing address.
pub fn location_info_request(callsign: &str) -> (res: ApiRequest)
    ensures
        res.path@ == "/callsign/"@ + callsign@ + "/location-info"@,
        res.not_found@ == callsign_not_found(callsign@),
{
    let mut path = String::from_str("/callsign/");
    path.append(callsign);
    path.append("/location-info");
    ApiRequest { path, not_found: callsign_not_found_text(callsign) }
}

/// The request for the band plan, restricted to one radio service (`A` or
/// `G`) when one is given.
pub fn bandplan_request(service: Option<&str>) -> (res: ApiRequest)
    ensures
        res.path@ == match service {
            Some(s) => "/bandplan?service="@ + s@,
            None => "/bandplan"@,
        },
        res.not_found@ == "Band plan data was not found."@,
{
    let path = match service {
        Some(s) => {
            let mut p = String::from_str("/bandplan?service=");
            p.append(s);
            p
        },
        None => String::from_str("/bandplan"),
    };
    ApiRequest { path, not_found: String::from_str("Band plan data was not found.") }
}

/// The request for the signed-in key's quota status.
pub fn key_usage_request() -> (res: ApiRequest)
    ensures
        res.path@ == "/keys/usage"@,
        res.not_found@ == "No active API key \u{2014} run `callrx auth login`."@,
{
    ApiRequest {
        path: String::from_str("/keys/usage"),
        not_found: String::from_str("No active API key \u{2014} run `callrx auth login`."),
    }
}

/// Where a device login starts.
pub const DEVICE_CODE_PATH: &'static str = "/auth/device/code";

/// Where a device login is polled.
pub const DEVICE_TOKEN_PATH: &'static str = "/auth/device/token";

/// The full URL of `path` on the service at `base_url`.
pub fn request_url(base_url: &str, path: &str) -> (res: String)
    ensures
        res@ == base_url@ + path@,
{
    let mut res = base_url.to_string();
    res.append(path);
    res
}

// ── Status codes ─────────────────────────────────────────────────────────────

/// What the service's answer with status `code` means for a request whose
/// 404 means `not_found`: `None` for success, else the error shown.
pub open spec fn status_error(code: u16, not_found: Seq<char>) -> Option<Seq<char>> {
    if code == 200 {
        None
    } else if code == 401 {
        Some("Unauthorized \u{2014} run `callrx auth login` to sign in, or set CALLRX_API_KEY to a valid callrx-service API key."@)
    } else if code == 403 {
        Some("Forbidden \u{2014} this API key has been suspended or revoked."@)
    } else if code == 404 {
        Some(not_found)
    } else if code == 429 {
        Some("Rate limit exceeded \u{2014} please wait a moment and try again."@)
    } else {
        Some("HTTP "@ + dec(code as nat) + " from the callrx-service API \u{2014} the service may be temporarily unavailable."@)
    }
}

/// Checks the status of an answer: `Ok` for 200, otherwise the message
/// that tells the user what went wrong.
pub fn check_status(code: u16, not_found: &str) -> (res: Result<(), String>)
    ensures
        match status_error(code, not_found@) {
            None => res is Ok,
            Some(msg) => res matches Err(e) && e@ == msg,
        },
{
    if code == 200 {
        Ok(())
    } else if code == 401 {
        Err(String::from_str("Unauthorized \u{2014} run `callrx auth login` to sign in, or set CALLRX_API_KEY to a valid callrx-service API key."))
    } else if code == 403 {
        Err(String::from_str("Forbidden \u{2014} this API key has been suspended or revoked."))
    } else if code == 404 {
        Err(not_found.to_string())
    } else if code == 429 {
        Err(String::from_str("Rate limit exceeded \u{2014} please wait a moment and try again."))
    } else {
        let mut msg = String::from_str("HTTP ");
        let digits = decimal_string(code as u64);
        msg.append(digits.as_str());
        msg.append(" from the callrx-service API \u{2014} the service may be temporarily unavailable.");
        Err(msg)
    }
}

/// What the answer with status `code` to the start of a device login means:
/// `None` for success, else the error shown.
pub open spec fn login_start_error(code: u16) -> Option<Seq<char>> {
    if code == 200 {
        None
    } else {
        Some("HTTP "@ + dec(code as nat) + " from the callrx-service API while starting login."@)
    }
}

/// Checks the status of the answer to the start of a device login.
pub fn check_login_start_status(code: u16) -> (res: Result<(), String>)
    ensures
        match login_start_error(code) {
            None => res is Ok,
            Some(msg) => res matches Err(e) && e@ == msg,
        },
{
    if code == 200 {
        Ok(())
    } else {
        let mut msg = String::from_str("HTTP ");
        let digits = decimal_string(code as u64);
        msg.append(digits.as_str());
        msg.append(" from the callrx-service API while starting login.");
        Err(msg)
    }
}

// ── Device-authorization login ───────────────────────────────────────────────

/// The start of a device login.
#[derive(Debug)]
pub struct DeviceCodeResponse {
    pub device_code: String,
    pub user_code: String,
    pub verification_uri: String,
    pub verification_uri_complete: String,
    pub expires_in: u64,
    pub interval: u64,
}

/// The key handed out once a device login has been approved.
#[derive(Debug)]
pub struct DeviceTokenResponse {
    pub api_key: String,
    pub key_prefix: String,
    pub tier: String,
}

/// The signed-in key's current quota status.
#[derive(Debug)]
pub struct KeyUsageResponse {
    pub tier: String,
    pub requests_per_day: i64,
    pub used_today: i64,
    pub remaining_today: i64,
    pub reset_at: String,
    pub requests_per_minute: i64,
    pub used_this_minute: i64,
    pub remaining_this_minute: i64,
    pub in_grace_period: bool,
}

/// Outcome of one poll of a device login.
#[derive(Debug)]
pub enum DevicePollOutcome {
    Pending,
    SlowDown { new_interval_secs: u64 },
    Denied(String),
    Expired,
    Success(DeviceTokenResponse),
}

/// Whether the answer to a poll with status `code` carries the new key (a
/// 200); any other answer is an error body read by [`device_error_outcome`].
pub fn device_poll_reads_token(code: u16) -> (res: bool)
    ensures
        res == (code == 200),
{
    code == 200
}

/// The `detail` of an error answer to a poll (RFC 8628 vocabulary in
/// `error`).
#[derive(Debug)]
pub struct DeviceErrorDetail {
    pub error: String,
    pub interval: Option<u64>,
    pub message: Option<String>,
}

/// The message shown for a denied login that came without one.
pub open spec fn default_denial() -> Seq<char> {
    "Login was denied."@
}

/// What an error answer to a poll means. `None` stands for a body that did
/// not hold a readable `detail`; it, and any error code not known here, ends
/// the login as expired, since polling on could not safely go anywhere else.
pub fn device_error_outcome(detail: Option<DeviceErrorDetail>) -> (res: DevicePollOutcome)
    ensures
        match detail {
            None => res is Expired,
            Some(d) => {
                if d.error@ == "authorization_pending"@ {
                    res is Pending
                } else if d.error@ == "slow_down"@ {
                    res matches DevicePollOutcome::SlowDown { new_interval_secs } && new_interval_secs == match d.interval {
                        Some(i) => i,
                        None => 10u64,
                    }
                } else if d.error@ == "access_denied"@ {
                    res matches DevicePollOutcome::Denied(m) && m@ == match d.message {
                        Some(text) => text@,
                        None => default_denial(),
                    }
                } else {
                    res is Expired
                }
            },
        },
{
    match detail {
        None => DevicePollOutcome::Expired,
        Some(d) => {
            if str_eq(d.error.as_str(), "authorization_pending") {
                DevicePollOutcome::Pending
            } else if str_eq(d.error.as_str(), "slow_down") {
                let new_interval_secs = match d.interval {
                    Some(i) => i,
                    None => 10,
                };
                DevicePollOutcome::SlowDown { new_interval_secs }
            } else if str_eq(d.error.as_str(), "expired_token") {
                proof {
                    reveal_strlit("expired_token");
                    reveal_strlit("access_denied");
                    assert("expired_token"@[0] != "access_denied"@[0]);
                }
                DevicePollOutcome::Expired
            } else if str_eq(d.error.as_str(), "access_denied") {
                match d.message {
                    Some(text) => DevicePollOutcome::Denied(text),
                    None => DevicePollOutcome::Denied(String::from_str("Login was denied.")),
                }
            } else {
                DevicePollOutcome::Expired
            }
        },
    }
}

} // verus!
