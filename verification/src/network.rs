//! Wireless-network controller decisions.
//!
//! The supplicant session is driven asynchronously by the surrounding
//! application; scan records, known-network records and call outcomes come
//! back as plain values, and everything decided about them — the typed
//! errors, the response records, the success and failure messages — is
//! verified here. The status query is total: the absence of a connection is
//! `false`, never an error. A removal takes a numeric network identifier,
//! not a name; the front-ends sometimes pipe in a name string parsed as a
//! number, and that ambiguity is kept as a documented caller contract.

use crate::text::spec_parse_uint;
use vstd::prelude::*;
use vstd::string::*;

verus! {

#[derive(Debug, Clone, Copy, PartialEq, Eq)]
pub enum NetworkErrorCodes {
    UnableToGetNetworkUsage,
    UnableToConnectWifi,
    UnableToScanWifi,
    UnableToRemoveWifi,
    Unknown,
}

impl NetworkErrorCodes {
    /// The code's name, as the front-ends print it.
    pub fn name(&self) -> (r: String)
        ensures
            match *self {
                NetworkErrorCodes::UnableToGetNetworkUsage => r@ == "UnableToGetNetworkUsage"@,
                NetworkErrorCodes::UnableToConnectWifi => r@ == "UnableToConnectWifi"@,
                NetworkErrorCodes::UnableToScanWifi => r@ == "UnableToScanWifi"@,
                NetworkErrorCodes::UnableToRemoveWifi => r@ == "UnableToRemoveWifi"@,
                NetworkErrorCodes::Unknown => r@ == "Unknown"@,
            },
    {
        match *self {
            NetworkErrorCodes::UnableToGetNetworkUsage => String::from_str(
                "UnableToGetNetworkUsage",
            ),
            NetworkErrorCodes::UnableToConnectWifi => String::from_str("UnableToConnectWifi"),
            NetworkErrorCodes::UnableToScanWifi => String::from_str("UnableToScanWifi"),
            NetworkErrorCodes::UnableToRemoveWifi => String::from_str("UnableToRemoveWifi"),
            NetworkErrorCodes::Unknown => String::from_str("Unknown"),
        }
    }
}

#[derive(Debug)]
pub struct NetworkError {
    pub code: NetworkErrorCodes,
    pub message: String,
}

impl NetworkError {
    pub fn new(code: NetworkErrorCodes, message: String) -> (r: Self)
        ensures
            r.code == code,
            r.message == message,
    {
        NetworkError { code, message }
    }
}

/// One network a scan saw, as the supplicant reports it.
#[derive(Debug)]
pub struct WirelessScanItem {
    pub mac: String,
    pub frequency: String,
    pub signal: i64,
    pub flags: String,
    pub name: String,
}

/// One provisioned network, as the supplicant lists it.
#[derive(Debug)]
pub struct KnownNetworkItem {
    pub network_id: usize,
    pub ssid: String,
    pub flags: String,
}

/// A scan record as the front-ends take it.
#[derive(Debug)]
pub struct ScanResult {
    pub mac: String,
    pub frequency: String,
    pub signal: i32,
    pub flags: String,
    pub name: String,
}

/// A known-network record as the front-ends take it.
#[derive(Debug)]
pub struct NetworkResult {
    pub network_id: i32,
    pub flags: String,
    pub ssid: String,
}

#[derive(Debug)]
pub struct WifiConnectResponse {
    pub success: bool,
    pub message: String,
}

#[derive(Debug)]
pub struct RemoveNetworkResponse {
    pub success: bool,
    pub message: String,
}

#[derive(Debug)]
pub struct WifiStatusResponse {
    pub wifi_on: bool,
}

/// A response record that carries a success flag and a message. The two
/// setters touch only their own field.
pub trait ResponseMessage {
    spec fn spec_success(&self) -> bool;

    spec fn spec_message(&self) -> Seq<char>;

    fn set_success(&mut self, success: bool)
        ensures
            final(self).spec_success() == success,
            final(self).spec_message() == old(self).spec_message(),
    ;

    fn set_message(&mut self, message: String)
        ensures
            final(self).spec_message() == message@,
            final(self).spec_success() == old(self).spec_success(),
    ;
}

impl ResponseMessage for WifiConnectResponse {
    open spec fn spec_success(&self) -> bool {
        self.success
    }

    open spec fn spec_message(&self) -> Seq<char> {
        self.message@
    }

    fn set_success(&mut self, success: bool) {
        self.success = success;
    }

    fn set_message(&mut self, message: String) {
        self.message = message;
    }
}

impl ResponseMessage for RemoveNetworkResponse {
    open spec fn spec_success(&self) -> bool {
        self.success
    }

    open spec fn spec_message(&self) -> Seq<char> {
        self.message@
    }

    fn set_success(&mut self, success: bool) {
        self.success = success;
    }

    fn set_message(&mut self, message: String) {
        self.message = message;
    }
}

/// The wireless front-end: turns supplicant outcomes into typed records.
#[derive(Debug, Default)]
pub struct NetworkManager {}

impl NetworkManager {
    /// Fill any response record from an outcome: the success flag follows
    /// the outcome and exactly one of the two given messages is set.
    pub fn handle_response<T: ResponseMessage>(
        &self,
        result: Result<(), &str>,
        response: &mut T,
        success_message: &str,
        failure_message: &str,
    )
        ensures
            result is Ok ==> final(response).spec_success() && final(response).spec_message()
                == success_message@,
            result is Err ==> !final(response).spec_success() && final(response).spec_message()
                == failure_message@,
    {
        match result {
            Ok(_) => {
                response.set_success(true);
                response.set_message(String::from_str(success_message));
            },
            Err(_) => {
                response.set_success(false);
                response.set_message(String::from_str(failure_message));
            },
        }
    }

    /// Type a connect outcome with the fixed failure message.
    pub fn connect_to_wifi(&self, connected: bool) -> (r: Result<(), &'static str>)
        ensures
            connected <==> r is Ok,
            !connected ==> r->Err_0@ == "WiFi connection failed"@,
    {
        if connected {
            Ok(())
        } else {
            Err("WiFi connection failed")
        }
    }

    /// Type a removal outcome with the fixed failure message.
    pub fn remove_wifi_network(&self, removed: bool) -> (r: Result<(), &'static str>)
        ensures
            removed <==> r is Ok,
            !removed ==> r->Err_0@ == "WiFi network removal failed"@,
    {
        if removed {
            Ok(())
        } else {
            Err("WiFi network removal failed")
        }
    }

    /// Build the connect response: success follows the outcome, the message
    /// is the fixed success or failure text.
    pub fn connect_wireless_network(&self, connected: bool) -> (r: WifiConnectResponse)
        ensures
            r.success == connected,
            connected ==> r.message@ == "WiFi connection successful"@,
            !connected ==> r.message@ == "WiFi connection failed"@,
    {
        let mut response = WifiConnectResponse { success: false, message: String::new() };
        let outcome = self.connect_to_wifi(connected);
        self.handle_response(
            outcome,
            &mut response,
            "WiFi connection successful",
            "WiFi connection failed",
        );
        response
    }

    /// Build the removal response: success follows the outcome, the message
    /// is the fixed success or failure text.
    pub fn disconnect_wireless_network(&self, removed: bool) -> (r: RemoveNetworkResponse)
        ensures
            r.success == removed,
            removed ==> r.message@ == "WiFi network removed successfully"@,
            !removed ==> r.message@ == "WiFi network removal failed"@,
    {
        let mut response = RemoveNetworkResponse { success: false, message: String::new() };
        let outcome = self.remove_wifi_network(removed);
        self.handle_response(
            outcome,
            &mut response,
            "WiFi network removed successfully",
            "WiFi network removal failed",
        );
        response
    }

    /// Convert a scan: one record per network seen, every field carried
    /// over, the signal narrowed to the front-ends' 32-bit field whenever it
    /// fits. A failed scan is the scan error.
    pub fn scan_wireless_network(&self, scan: Option<Vec<WirelessScanItem>>) -> (r: Result<
        Vec<ScanResult>,
        NetworkError,
    >)
        ensures
            scan is None ==> r is Err && r->Err_0.code is UnableToScanWifi,
            scan matches Some(items) ==> r is Ok && ({
                let out = r->Ok_0@;
                &&& out.len() == items@.len()
                &&& forall|i: int|
                    0 <= i < out.len() ==> {
                        &&& (#[trigger] out[i]).mac@ == items@[i].mac@
                        &&& out[i].frequency@ == items@[i].frequency@
                        &&& out[i].flags@ == items@[i].flags@
                        &&& out[i].name@ == items@[i].name@
                        &&& (i32::MIN <= items@[i].signal <= i32::MAX ==> out[i].signal
                            == items@[i].signal)
                    }
            }),
    {
        let items = match scan {
            None => {
                return Err(
                    NetworkError::new(
                        NetworkErrorCodes::UnableToScanWifi,
                        String::from_str("unable to scan wireless networks"),
                    ),
                );
            },
            Some(items) => items,
        };
        let mut out: Vec<ScanResult> = Vec::new();
        let n = items.len();
        let mut i: usize = 0;
        while i < n
            invariant
                0 <= i <= n,
                n == items@.len(),
                out@.len() == i,
                forall|m: int|
                    0 <= m < i ==> {
                        &&& (#[trigger] out@[m]).mac@ == items@[m].mac@
                        &&& out@[m].frequency@ == items@[m].frequency@
                        &&& out@[m].flags@ == items@[m].flags@
                        &&& out@[m].name@ == items@[m].name@
                        &&& (i32::MIN <= items@[m].signal <= i32::MAX ==> out@[m].signal
                            == items@[m].signal)
                    },
            decreases n - i,
        {
            let item = &items[i];
            let signal: i32 = if item.signal >= (i32::MIN as i64) && item.signal <= (
            i32::MAX as i64) {
                item.signal as i32
            } else {
                #[verifier::truncate] (item.signal as i32)
            };
            out.push(
                ScanResult {
                    mac: item.mac.clone(),
                    frequency: item.frequency.clone(),
                    signal,
                    flags: item.flags.clone(),
                    name: item.name.clone(),
                },
            );
            i = i + 1;
        }
        Ok(out)
    }

    /// Convert the known-network list, one record per network, the numeric
    /// identifier narrowed whenever it fits. A failed listing is typed.
    pub fn scan_known_wireless_network(&self, known: Option<Vec<KnownNetworkItem>>) -> (r: Result<
        Vec<NetworkResult>,
        NetworkError,
    >)
        ensures
            known is None ==> r is Err && r->Err_0.code is UnableToGetNetworkUsage,
            known matches Some(items) ==> r is Ok && ({
                let out = r->Ok_0@;
                &&& out.len() == items@.len()
                &&& forall|i: int|
                    0 <= i < out.len() ==> {
                        &&& (#[trigger] out[i]).ssid@ == items@[i].ssid@
                        &&& out[i].flags@ == items@[i].flags@
                        &&& (items@[i].network_id <= i32::MAX ==> out[i].network_id == items@[
                        i].network_id)
                    }
            }),
    {
        let items = match known {
            None => {
                return Err(
                    NetworkError::new(
                        NetworkErrorCodes::UnableToGetNetworkUsage,
                        String::from_str("unable to list known wireless networks"),
                    ),
                );
            },
            Some(items) => items,
        };
        let mut out: Vec<NetworkResult> = Vec::new();
        let n = items.len();
        let mut i: usize = 0;
        while i < n
            invariant
                0 <= i <= n,
                n == items@.len(),
                out@.len() == i,
                forall|m: int|
                    0 <= m < i ==> {
                        &&& (#[trigger] out@[m]).ssid@ == items@[m].ssid@
                        &&& out@[m].flags@ == items@[m].flags@
                        &&& (items@[m].network_id <= i32::MAX ==> out@[m].network_id == items@[
                        m].network_id)
                    },
            decreases n - i,
        {
            let item = &items[i];
            let network_id: i32 = if item.network_id <= (i32::MAX as usize) {
                item.network_id as i32
            } else {
                #[verifier::truncate] (item.network_id as i32)
            };
            out.push(
                NetworkResult {
                    network_id,
                    flags: item.flags.clone(),
                    ssid: item.ssid.clone(),
                },
            );
            i = i + 1;
        }
        Ok(out)
    }

    /// The status query is total: the supplicant's yes-or-no passes through
    /// and the absence of a connection is `false`, never an error.
    pub fn get_wifi_status(&self, wifi_on: bool) -> (r: WifiStatusResponse)
        ensures
            r.wifi_on == wifi_on,
    {
        WifiStatusResponse { wifi_on }
    }

    /// Convert the current network, if the supplicant reports one.
    pub fn get_current_network(&self, current: Option<WirelessScanItem>) -> (r: Result<
        ScanResult,
        NetworkError,
    >)
        ensures
            current is None ==> r is Err && r->Err_0.code is Unknown,
            current matches Some(item) ==> r is Ok && r->Ok_0.mac@ == item.mac@
                && r->Ok_0.frequency@ == item.frequency@ && r->Ok_0.flags@ == item.flags@
                && r->Ok_0.name@ == item.name@ && (i32::MIN <= item.signal <= i32::MAX
                ==> r->Ok_0.signal == item.signal),
    {
        let item = match current {
            None => {
                return Err(
                    NetworkError::new(
                        NetworkErrorCodes::Unknown,
                        String::from_str("no current wireless network"),
                    ),
                );
            },
            Some(item) => item,
        };
        let signal: i32 = if item.signal >= (i32::MIN as i64) && item.signal <= (i32::MAX as i64) {
            item.signal as i32
        } else {
            #[verifier::truncate] (item.signal as i32)
        };
        Ok(
            ScanResult {
                mac: item.mac,
                frequency: item.frequency,
                signal,
                flags: item.flags,
                name: item.name,
            },
        )
    }

    /// The identifier a removal takes: a front-end hands in what it
    /// otherwise treats as a name, read as a plain unsigned decimal. Only a
    /// numeric string yields an identifier.
    pub fn parse_network_id(&self, ssid: &str) -> (r: Option<usize>)
        ensures
            match r {
                Some(v) => spec_parse_uint(ssid@, usize::MAX as int) == Some(v as int),
                None => spec_parse_uint(ssid@, usize::MAX as int) is None,
            },
    {
        proof {
            let s = ssid@;
            let digits = if s.len() > 0 && s[0] == '+' {
                s.subrange(1, s.len() as int)
            } else {
                s
            };
            if digits.len() > 0 && crate::text::spec_all_digits(digits) {
                crate::text::lemma_digits_val_nonneg(digits);
            }
        }
        match crate::text::parse_u64_text(ssid) {
            Some(v) => {
                if v <= (usize::MAX as u64) {
                    Some(v as usize)
                } else {
                    None
                }
            },
            None => None,
        }
    }
}

} // verus!
