//! Device identity: the synthetic hardware/software fingerprint presented
//! to the remote service, and its dual-schema JSON codec.
//!
//! A persisted device document carries a schema discriminator
//! `deviceInfoVersion`.  Version 1 (the discriminator is absent) stores
//! strings as arrays of UTF-8 byte values and binary fields as integer
//! arrays, directly in the root object.  Version 2 keeps the fields under a
//! nested `data` object, stores strings directly and binary fields as
//! hexadecimal text.  Writing always produces version 2.

use vstd::prelude::*;

use crate::hexstr::{
    lemma_hex_round_trip, spec_hex_decode, spec_hex_encode,
};
use crate::json::{
    lemma_obj_get_absent, lemma_obj_get_found, obj_get, spec_obj_get, JsonValue,
};
use vstd::utf8::{decode_utf8, valid_utf8};

verus! {

/// The operating-system version sub-record of a device identity.
#[derive(Debug, Clone, PartialEq, Eq)]
pub struct OsVersion {
    /// Incremental build number.
    pub incremental: String,
    /// Release name.
    pub release: String,
    /// Release codename.
    pub codename: String,
    /// SDK level.
    pub sdk: u32,
}

/// The optional device-attestation pair: two non-empty opaque strings.
#[derive(Debug, Clone, PartialEq, Eq)]
pub struct Qimei {
    /// The short half.
    pub q16: String,
    /// The long half.
    pub q36: String,
}

/// A device identity: the fingerprint a client presents to the remote
/// service so that it is recognized as one consistent physical device.
#[derive(Debug, Clone, PartialEq, Eq)]
pub struct DeviceIdentity {
    /// Display name of the build.
    pub display: String,
    /// Product name.
    pub product: String,
    /// Device codename.
    pub device: String,
    /// Board name.
    pub board: String,
    /// Model name.
    pub model: String,
    /// Build fingerprint string.
    pub finger_print: String,
    /// Boot identifier.
    pub boot_id: String,
    /// Kernel version string.
    pub proc_version: String,
    /// Equipment identity number.
    pub imei: String,
    /// Brand name.
    pub brand: String,
    /// Bootloader name.
    pub bootloader: String,
    /// Baseband version.
    pub base_band: String,
    /// Operating-system version sub-record.
    pub version: OsVersion,
    /// SIM provider info.
    pub sim_info: String,
    /// Operating-system type.
    pub os_type: String,
    /// MAC address text.
    pub mac_address: String,
    /// IP address bytes.
    pub ip_address: Vec<u8>,
    /// Wi-Fi access-point identifier.
    pub wifi_bssid: String,
    /// Wi-Fi network name.
    pub wifi_ssid: String,
    /// Hash of the subscriber identity.
    pub imsi_md5: Vec<u8>,
    /// Platform identifier.
    pub android_id: String,
    /// Access-point name.
    pub apn: String,
    /// Vendor name.
    pub vendor_name: String,
    /// Vendor operating-system name.
    pub vendor_os_name: String,
    /// Optional device-attestation pair.
    pub qimei: Option<Qimei>,
}

/// The mathematical value of an [`OsVersion`].
pub struct OsVersionModel {
    /// Incremental build number.
    pub incremental: Seq<char>,
    /// Release name.
    pub release: Seq<char>,
    /// Release codename.
    pub codename: Seq<char>,
    /// SDK level.
    pub sdk: u32,
}

/// The mathematical value of a [`DeviceIdentity`].
pub struct DeviceModel {
    /// Display name of the build.
    pub display: Seq<char>,
    /// Product name.
    pub product: Seq<char>,
    /// Device codename.
    pub device: Seq<char>,
    /// Board name.
    pub board: Seq<char>,
    /// Model name.
    pub model: Seq<char>,
    /// Build fingerprint string.
    pub finger_print: Seq<char>,
    /// Boot identifier.
    pub boot_id: Seq<char>,
    /// Kernel version string.
    pub proc_version: Seq<char>,
    /// Equipment identity number.
    pub imei: Seq<char>,
    /// Brand name.
    pub brand: Seq<char>,
    /// Bootloader name.
    pub bootloader: Seq<char>,
    /// Baseband version.
    pub base_band: Seq<char>,
    /// Operating-system version sub-record.
    pub version: OsVersionModel,
    /// SIM provider info.
    pub sim_info: Seq<char>,
    /// Operating-system type.
    pub os_type: Seq<char>,
    /// MAC address text.
    pub mac_address: Seq<char>,
    /// IP address bytes.
    pub ip_address: Seq<u8>,
    /// Wi-Fi access-point identifier.
    pub wifi_bssid: Seq<char>,
    /// Wi-Fi network name.
    pub wifi_ssid: Seq<char>,
    /// Hash of the subscriber identity.
    pub imsi_md5: Seq<u8>,
    /// Platform identifier.
    pub android_id: Seq<char>,
    /// Access-point name.
    pub apn: Seq<char>,
    /// Vendor name.
    pub vendor_name: Seq<char>,
    /// Vendor operating-system name.
    pub vendor_os_name: Seq<char>,
    /// Optional device-attestation pair, as (short, long).
    pub qimei: Option<(Seq<char>, Seq<char>)>,
}

impl DeviceModel {
    /// Validity: an attestation pair, when present, has two non-empty
    /// halves.  A pair with an empty half never arises: the decoder turns
    /// it into absence.
    pub open spec fn wf(self) -> bool {
        self.qimei matches Some(q) ==> q.0.len() > 0 && q.1.len() > 0
    }
}

impl View for OsVersion {
    type V = OsVersionModel;

    open spec fn view(&self) -> OsVersionModel {
        OsVersionModel {
            incremental: self.incremental@,
            release: self.release@,
            codename: self.codename@,
            sdk: self.sdk,
        }
    }
}

impl View for DeviceIdentity {
    type V = DeviceModel;

    open spec fn view(&self) -> DeviceModel {
        DeviceModel {
            display: self.display@,
            product: self.product@,
            device: self.device@,
            board: self.board@,
            model: self.model@,
            finger_print: self.finger_print@,
            boot_id: self.boot_id@,
            proc_version: self.proc_version@,
            imei: self.imei@,
            brand: self.brand@,
            bootloader: self.bootloader@,
            base_band: self.base_band@,
            version: self.version@,
            sim_info: self.sim_info@,
            os_type: self.os_type@,
            mac_address: self.mac_address@,
            ip_address: self.ip_address@,
            wifi_bssid: self.wifi_bssid@,
            wifi_ssid: self.wifi_ssid@,
            imsi_md5: self.imsi_md5@,
            android_id: self.android_id@,
            apn: self.apn@,
            vendor_name: self.vendor_name@,
            vendor_os_name: self.vendor_os_name@,
            qimei: match self.qimei {
                Some(q) => Some((q.q16@, q.q36@)),
                None => None,
            },
        }
    }
}

impl DeviceIdentity {
    /// Validity of the executable value; see [`DeviceModel::wf`].
    pub open spec fn wf(&self) -> bool {
        self@.wf()
    }
}

/// A malformed persisted device document.
#[derive(Debug, Clone, PartialEq, Eq)]
pub enum FormatError {
    /// The document root is not a JSON object.
    NotAnObject,
    /// The schema discriminator holds an unsupported value.
    UnknownVersion(i64),
    /// A version-2 document has no `data` object.
    MissingData,
    /// The named field is present but structurally wrong.
    Field(String),
}

/// The mathematical value of a [`FormatError`].
pub enum FormatErrorModel {
    /// The document root is not a JSON object.
    NotAnObject,
    /// The schema discriminator holds an unsupported value.
    UnknownVersion(i64),
    /// A version-2 document has no `data` object.
    MissingData,
    /// The named field is present but structurally wrong.
    Field(Seq<char>),
}

impl View for FormatError {
    type V = FormatErrorModel;

    open spec fn view(&self) -> FormatErrorModel {
        match self {
            FormatError::NotAnObject => FormatErrorModel::NotAnObject,
            FormatError::UnknownVersion(v) => FormatErrorModel::UnknownVersion(*v),
            FormatError::MissingData => FormatErrorModel::MissingData,
            FormatError::Field(k) => FormatErrorModel::Field(k@),
        }
    }
}

impl OsVersion {
    /// A copy with the same value.  (The derived `Clone` carries no
    /// specification, so copying is spelled out.)
    pub fn duplicate(&self) -> (r: OsVersion)
        ensures
            r@ == self@,
    {
        OsVersion {
            incremental: self.incremental.clone(),
            release: self.release.clone(),
            codename: self.codename.clone(),
            sdk: self.sdk,
        }
    }
}

/// The members of a JSON object, in textual order.
pub type JsonMembers = Seq<(String, JsonValue)>;

/// The low byte (bit truncation) of an integer: how version-1 documents
/// store one byte.
pub open spec fn low_byte(i: i64) -> u8 {
    i as u8
}

/// The low 32 bits (bit truncation) of an integer: how version-1 documents
/// store the SDK level.
pub open spec fn wrap_u32(i: i64) -> u32 {
    i as u32
}

/// The byte sequence denoted by a version-1 integer array, or `None` if
/// some element is not an integer.
pub open spec fn spec_int_bytes(elems: Seq<JsonValue>) -> Option<Seq<u8>>
    decreases elems.len(),
{
    if elems.len() == 0 {
        Some(Seq::empty())
    } else {
        match elems[0] {
            JsonValue::Int(i) => match spec_int_bytes(elems.drop_first()) {
                Some(rest) => Some(seq![low_byte(i)] + rest),
                None => None,
            },
            _ => None,
        }
    }
}

/// A string field.  Version 2 stores the string directly; version 1 also
/// accepts an array of UTF-8 byte values.  A missing field falls back.
pub open spec fn sp_str(v2: bool, m: JsonMembers, key: Seq<char>, fb: Seq<char>) -> Result<
    Seq<char>,
    (),
> {
    match spec_obj_get(m, key) {
        None => Ok(fb),
        Some(JsonValue::Str(s)) => Ok(s@),
        Some(JsonValue::Arr(a)) => if v2 {
            Err(())
        } else {
            match spec_int_bytes(a@) {
                Some(b) => if valid_utf8(b) {
                    Ok(decode_utf8(b))
                } else {
                    Err(())
                },
                None => Err(()),
            }
        },
        Some(_) => Err(()),
    }
}

/// A binary field.  Version 2 stores hexadecimal text; version 1 stores an
/// integer array.  A missing field falls back.
pub open spec fn sp_bytes(v2: bool, m: JsonMembers, key: Seq<char>, fb: Seq<u8>) -> Result<
    Seq<u8>,
    (),
> {
    match spec_obj_get(m, key) {
        None => Ok(fb),
        Some(JsonValue::Str(s)) => if v2 {
            match spec_hex_decode(s@) {
                Some(b) => Ok(b),
                None => Err(()),
            }
        } else {
            Err(())
        },
        Some(JsonValue::Arr(a)) => if v2 {
            Err(())
        } else {
            match spec_int_bytes(a@) {
                Some(b) => Ok(b),
                None => Err(()),
            }
        },
        Some(_) => Err(()),
    }
}

/// An unsigned 32-bit field.  Version 2 rejects an out-of-range integer;
/// version 1 keeps its low 32 bits.  A missing field falls back.
pub open spec fn sp_u32(v2: bool, m: JsonMembers, key: Seq<char>, fb: u32) -> Result<u32, ()> {
    match spec_obj_get(m, key) {
        None => Ok(fb),
        Some(JsonValue::Int(i)) => if v2 {
            if 0 <= i && i <= u32::MAX {
                Ok(i as u32)
            } else {
                Err(())
            }
        } else {
            Ok(wrap_u32(i))
        },
        Some(_) => Err(()),
    }
}

/// The operating-system version record.  A missing record falls back
/// wholesale; within a present record each sub-field falls back on its own.
pub open spec fn sp_version(v2: bool, m: JsonMembers, fb: OsVersionModel) -> Result<
    OsVersionModel,
    (),
> {
    match spec_obj_get(m, "version"@) {
        None => Ok(fb),
        Some(JsonValue::Obj(entries)) => {
            match (
                sp_str(v2, entries@, "incremental"@, fb.incremental),
                sp_str(v2, entries@, "release"@, fb.release),
                sp_str(v2, entries@, "codename"@, fb.codename),
                sp_u32(v2, entries@, "sdk"@, fb.sdk),
            ) {
                (Ok(i), Ok(r), Ok(c), Ok(s)) => Ok(
                    OsVersionModel { incremental: i, release: r, codename: c, sdk: s },
                ),
                _ => Err(()),
            }
        },
        Some(_) => Err(()),
    }
}

/// The optional attestation pair.  A missing field is absence; a present
/// pair with an empty half is also treated as absence, not as an error.
pub open spec fn sp_qimei(v2: bool, m: JsonMembers) -> Result<Option<(Seq<char>, Seq<char>)>, ()> {
    match spec_obj_get(m, "qimei"@) {
        None => Ok(None),
        Some(JsonValue::Obj(entries)) => {
            match (
                sp_str(v2, entries@, "q16"@, Seq::empty()),
                sp_str(v2, entries@, "q36"@, Seq::empty()),
            ) {
                (Ok(a), Ok(b)) => if a.len() == 0 || b.len() == 0 {
                    Ok(None)
                } else {
                    Ok(Some((a, b)))
                },
                _ => Err(()),
            }
        },
        Some(_) => Err(()),
    }
}

/// The schema version a document declares: 1 when the discriminator is
/// absent, its value when it is an integer, and -1 (unsupported) otherwise.
pub open spec fn spec_version_of(root: JsonMembers) -> i64 {
    match spec_obj_get(root, "deviceInfoVersion"@) {
        None => 1i64,
        Some(JsonValue::Int(i)) => i,
        Some(_) => -1i64,
    }
}

/// Decodes the fields of a device document from the object that holds them
/// (the root for version 1, the `data` object for version 2).  The first
/// structurally wrong field, in reading order, is the named one.
pub open spec fn spec_decode_fields(v2: bool, m: JsonMembers, fb: DeviceModel) -> Result<
    DeviceModel,
    FormatErrorModel,
> {
    if sp_str(v2, m, "display"@, fb.display) is Err {
        Err(FormatErrorModel::Field("display"@))
    } else if sp_str(v2, m, "product"@, fb.product) is Err {
        Err(FormatErrorModel::Field("product"@))
    } else if sp_str(v2, m, "device"@, fb.device) is Err {
        Err(FormatErrorModel::Field("device"@))
    } else if sp_str(v2, m, "board"@, fb.board) is Err {
        Err(FormatErrorModel::Field("board"@))
    } else if sp_str(v2, m, "model"@, fb.model) is Err {
        Err(FormatErrorModel::Field("model"@))
    } else if sp_str(v2, m, "fingerprint"@, fb.finger_print) is Err {
        Err(FormatErrorModel::Field("fingerprint"@))
    } else if sp_str(v2, m, "bootId"@, fb.boot_id) is Err {
        Err(FormatErrorModel::Field("bootId"@))
    } else if sp_str(v2, m, "procVersion"@, fb.proc_version) is Err {
        Err(FormatErrorModel::Field("procVersion"@))
    } else if sp_str(v2, m, "imei"@, fb.imei) is Err {
        Err(FormatErrorModel::Field("imei"@))
    } else if sp_str(v2, m, "brand"@, fb.brand) is Err {
        Err(FormatErrorModel::Field("brand"@))
    } else if sp_str(v2, m, "bootloader"@, fb.bootloader) is Err {
        Err(FormatErrorModel::Field("bootloader"@))
    } else if sp_str(v2, m, "baseBand"@, fb.base_band) is Err {
        Err(FormatErrorModel::Field("baseBand"@))
    } else if sp_version(v2, m, fb.version) is Err {
        Err(FormatErrorModel::Field("version"@))
    } else if sp_str(v2, m, "simInfo"@, fb.sim_info) is Err {
        Err(FormatErrorModel::Field("simInfo"@))
    } else if sp_str(v2, m, "osType"@, fb.os_type) is Err {
        Err(FormatErrorModel::Field("osType"@))
    } else if sp_str(v2, m, "macAddress"@, fb.mac_address) is Err {
        Err(FormatErrorModel::Field("macAddress"@))
    } else if sp_bytes(v2, m, "ipAddress"@, fb.ip_address) is Err {
        Err(FormatErrorModel::Field("ipAddress"@))
    } else if sp_str(v2, m, "wifiBSSID"@, fb.wifi_bssid) is Err {
        Err(FormatErrorModel::Field("wifiBSSID"@))
    } else if sp_str(v2, m, "wifiSSID"@, fb.wifi_ssid) is Err {
        Err(FormatErrorModel::Field("wifiSSID"@))
    } else if sp_bytes(v2, m, "imsiMd5"@, fb.imsi_md5) is Err {
        Err(FormatErrorModel::Field("imsiMd5"@))
    } else if sp_str(v2, m, "androidId"@, fb.android_id) is Err {
        Err(FormatErrorModel::Field("androidId"@))
    } else if sp_str(v2, m, "apn"@, fb.apn) is Err {
        Err(FormatErrorModel::Field("apn"@))
    } else if sp_str(v2, m, "vendorName"@, fb.vendor_name) is Err {
        Err(FormatErrorModel::Field("vendorName"@))
    } else if sp_str(v2, m, "vendorOsName"@, fb.vendor_os_name) is Err {
        Err(FormatErrorModel::Field("vendorOsName"@))
    } else if sp_qimei(v2, m) is Err {
        Err(FormatErrorModel::Field("qimei"@))
    } else {
        Ok(
            DeviceModel {
                display: sp_str(v2, m, "display"@, fb.display)->Ok_0,
                product: sp_str(v2, m, "product"@, fb.product)->Ok_0,
                device: sp_str(v2, m, "device"@, fb.device)->Ok_0,
                board: sp_str(v2, m, "board"@, fb.board)->Ok_0,
                model: sp_str(v2, m, "model"@, fb.model)->Ok_0,
                finger_print: sp_str(v2, m, "fingerprint"@, fb.finger_print)->Ok_0,
                boot_id: sp_str(v2, m, "bootId"@, fb.boot_id)->Ok_0,
                proc_version: sp_str(v2, m, "procVersion"@, fb.proc_version)->Ok_0,
                imei: sp_str(v2, m, "imei"@, fb.imei)->Ok_0,
                brand: sp_str(v2, m, "brand"@, fb.brand)->Ok_0,
                bootloader: sp_str(v2, m, "bootloader"@, fb.bootloader)->Ok_0,
                base_band: sp_str(v2, m, "baseBand"@, fb.base_band)->Ok_0,
                version: sp_version(v2, m, fb.version)->Ok_0,
                sim_info: sp_str(v2, m, "simInfo"@, fb.sim_info)->Ok_0,
                os_type: sp_str(v2, m, "osType"@, fb.os_type)->Ok_0,
                mac_address: sp_str(v2, m, "macAddress"@, fb.mac_address)->Ok_0,
                ip_address: sp_bytes(v2, m, "ipAddress"@, fb.ip_address)->Ok_0,
                wifi_bssid: sp_str(v2, m, "wifiBSSID"@, fb.wifi_bssid)->Ok_0,
                wifi_ssid: sp_str(v2, m, "wifiSSID"@, fb.wifi_ssid)->Ok_0,
                imsi_md5: sp_bytes(v2, m, "imsiMd5"@, fb.imsi_md5)->Ok_0,
                android_id: sp_str(v2, m, "androidId"@, fb.android_id)->Ok_0,
                apn: sp_str(v2, m, "apn"@, fb.apn)->Ok_0,
                vendor_name: sp_str(v2, m, "vendorName"@, fb.vendor_name)->Ok_0,
                vendor_os_name: sp_str(v2, m, "vendorOsName"@, fb.vendor_os_name)->Ok_0,
                qimei: sp_qimei(v2, m)->Ok_0,
            },
        )
    }
}

/// Decodes a whole device document against a fallback identity.
pub open spec fn spec_from_json(doc: JsonValue, fb: DeviceModel) -> Result<
    DeviceModel,
    FormatErrorModel,
> {
    match doc {
        JsonValue::Obj(root) => {
            let v = spec_version_of(root@);
            if v == 1 {
                spec_decode_fields(false, root@, fb)
            } else if v == 2 {
                match spec_obj_get(root@, "data"@) {
                    Some(JsonValue::Obj(data)) => spec_decode_fields(true, data@, fb),
                    Some(_) => Err(FormatErrorModel::MissingData),
                    None => Err(FormatErrorModel::MissingData),
                }
            } else {
                Err(FormatErrorModel::UnknownVersion(v))
            }
        },
        _ => Err(FormatErrorModel::NotAnObject),
    }
}

/// Version-1 byte-array fidelity: a string field stored as the integer
/// array of the string's UTF-8 byte values decodes back to exactly that
/// string, never to the fallback.
pub proof fn lemma_v1_bytes_reconstruct(
    m: JsonMembers,
    key: Seq<char>,
    chars: Seq<char>,
    elems: Vec<JsonValue>,
    fb: Seq<char>,
)
    requires
        spec_obj_get(m, key) == Some(JsonValue::Arr(elems)),
        spec_int_bytes(elems@) == Some(vstd::utf8::encode_utf8(chars)),
    ensures
        sp_str(false, m, key, fb) == Ok::<Seq<char>, ()>(chars),
{
    broadcast use vstd::utf8::encode_utf8_valid_utf8;

    vstd::utf8::encode_utf8_decode_utf8(chars);
}

/// Relies on `String::from_utf8` from the standard library: it succeeds
/// exactly on valid UTF-8 and returns the decoded characters.
#[verifier::external_body]
fn string_from_utf8(bytes: Vec<u8>) -> (r: Option<String>)
    ensures
        valid_utf8(bytes@) <==> r is Some,
        r matches Some(s) ==> s@ == decode_utf8(bytes@),
{
    String::from_utf8(bytes).ok()
}

/// The low byte of an integer, as version 1 stores bytes.
fn int_low_byte(x: i64) -> (b: u8)
    ensures
        b == low_byte(x),
{
    #[verifier::truncate]
    (x as u8)
}

/// Reads a version-1 integer array as bytes.
fn int_bytes(elems: &Vec<JsonValue>) -> (r: Option<Vec<u8>>)
    ensures
        match spec_int_bytes(elems@) {
            Some(b) => r matches Some(v) && v@ == b,
            None => r is None,
        },
{
    let n = elems.len();
    let mut acc: Vec<u8> = Vec::new();
    let mut i: usize = 0;
    proof {
        assert(elems@.skip(0) =~= elems@);
    }
    while i < n
        invariant
            i <= n,
            n == elems@.len(),
            acc@.len() == i,
            spec_int_bytes(elems@) == (match spec_int_bytes(elems@.skip(i as int)) {
                Some(rest) => Some(acc@ + rest),
                None => None::<Seq<u8>>,
            }),
        decreases n - i,
    {
        proof {
            assert(elems@.skip(i as int)[0] == elems@[i as int]);
            assert(elems@.skip(i as int).drop_first() =~= elems@.skip(i + 1));
        }
        match &elems[i] {
            JsonValue::Int(v) => {
                let b = int_low_byte(*v);
                acc.push(b);
                proof {
                    let rest_opt = spec_int_bytes(elems@.skip(i + 1));
                    if rest_opt is Some {
                        let rest = rest_opt->Some_0;
                        assert(acc@ + rest =~= acc@.drop_last() + (seq![low_byte(elems@[
                        i as int]->Int_0)] + rest));
                    }
                }
            },
            _ => {
                return None;
            },
        }
        i = i + 1;
    }
    proof {
        assert(elems@.skip(n as int).len() == 0);
        assert(acc@ + Seq::<u8>::empty() =~= acc@);
    }
    Some(acc)
}

/// The error naming a structurally wrong field.
fn field_err(key: &str) -> (e: FormatError)
    ensures
        e@ == FormatErrorModel::Field(key@),
{
    FormatError::Field(String::from_str(key))
}

/// Reads a string field (see [`sp_str`]).
fn parse_str(v2: bool, m: &Vec<(String, JsonValue)>, key: &str, fb: &String) -> (r: Result<
    String,
    FormatError,
>)
    ensures
        match sp_str(v2, m@, key@, fb@) {
            Ok(s) => r matches Ok(v) && v@ == s,
            Err(_) => r matches Err(e) && e@ == FormatErrorModel::Field(key@),
        },
{
    match obj_get(m, key) {
        None => Ok(fb.clone()),
        Some(v) => match v {
            JsonValue::Str(s) => Ok(s.clone()),
            JsonValue::Arr(a) => {
                if v2 {
                    Err(field_err(key))
                } else {
                    match int_bytes(a) {
                        Some(b) => match string_from_utf8(b) {
                            Some(s) => Ok(s),
                            None => Err(field_err(key)),
                        },
                        None => Err(field_err(key)),
                    }
                }
            },
            _ => Err(field_err(key)),
        },
    }
}

/// Reads a binary field (see [`sp_bytes`]).
fn parse_bytes(v2: bool, m: &Vec<(String, JsonValue)>, key: &str, fb: &Vec<u8>) -> (r: Result<
    Vec<u8>,
    FormatError,
>)
    ensures
        match sp_bytes(v2, m@, key@, fb@) {
            Ok(b) => r matches Ok(v) && v@ == b,
            Err(_) => r matches Err(e) && e@ == FormatErrorModel::Field(key@),
        },
{
    match obj_get(m, key) {
        None => Ok(fb.clone()),
        Some(v) => match v {
            JsonValue::Str(s) => {
                if v2 {
                    match crate::hexstr::hex_decode(s.as_str()) {
                        Some(b) => Ok(b),
                        None => Err(field_err(key)),
                    }
                } else {
                    Err(field_err(key))
                }
            },
            JsonValue::Arr(a) => {
                if v2 {
                    Err(field_err(key))
                } else {
                    match int_bytes(a) {
                        Some(b) => Ok(b),
                        None => Err(field_err(key)),
                    }
                }
            },
            _ => Err(field_err(key)),
        },
    }
}

/// Reads an unsigned 32-bit field (see [`sp_u32`]).
fn parse_u32(v2: bool, m: &Vec<(String, JsonValue)>, key: &str, fb: u32) -> (r: Result<
    u32,
    FormatError,
>)
    ensures
        match sp_u32(v2, m@, key@, fb) {
            Ok(n) => r matches Ok(v) && v == n,
            Err(_) => r matches Err(e) && e@ == FormatErrorModel::Field(key@),
        },
{
    match obj_get(m, key) {
        None => Ok(fb),
        Some(v) => match v {
            JsonValue::Int(i) => {
                if v2 {
                    if *i >= 0 && *i <= u32::MAX as i64 {
                        Ok(*i as u32)
                    } else {
                        Err(field_err(key))
                    }
                } else {
                    Ok(
                        #[verifier::truncate]
                        (*i as u32),
                    )
                }
            },
            _ => Err(field_err(key)),
        },
    }
}

/// Reads the operating-system version record (see [`sp_version`]).
fn parse_version(v2: bool, m: &Vec<(String, JsonValue)>, fb: &OsVersion) -> (r: Result<
    OsVersion,
    FormatError,
>)
    ensures
        match sp_version(v2, m@, fb@) {
            Ok(o) => r matches Ok(v) && v@ == o,
            Err(_) => r matches Err(e) && e@ == FormatErrorModel::Field("version"@),
        },
{
    match obj_get(m, "version") {
        None => Ok(fb.duplicate()),
        Some(v) => match v {
            JsonValue::Obj(entries) => {
                let incremental = match parse_str(v2, entries, "incremental", &fb.incremental) {
                    Ok(s) => s,
                    Err(_) => {
                        return Err(field_err("version"));
                    },
                };
                let release = match parse_str(v2, entries, "release", &fb.release) {
                    Ok(s) => s,
                    Err(_) => {
                        return Err(field_err("version"));
                    },
                };
                let codename = match parse_str(v2, entries, "codename", &fb.codename) {
                    Ok(s) => s,
                    Err(_) => {
                        return Err(field_err("version"));
                    },
                };
                let sdk = match parse_u32(v2, entries, "sdk", fb.sdk) {
                    Ok(n) => n,
                    Err(_) => {
                        return Err(field_err("version"));
                    },
                };
                Ok(OsVersion { incremental, release, codename, sdk })
            },
            _ => Err(field_err("version")),
        },
    }
}

/// Reads the optional attestation pair (see [`sp_qimei`]).
fn parse_qimei(v2: bool, m: &Vec<(String, JsonValue)>) -> (r: Result<Option<Qimei>, FormatError>)
    ensures
        match sp_qimei(v2, m@) {
            Ok(q) => {
                &&& r matches Ok(v)
                &&& (match (r->Ok_0, q) {
                    (Some(p), Some(s)) => p.q16@ == s.0 && p.q36@ == s.1,
                    (None, None) => true,
                    _ => false,
                })
            },
            Err(_) => r matches Err(e) && e@ == FormatErrorModel::Field("qimei"@),
        },
        r matches Ok(Some(p)) ==> p.q16@.len() > 0 && p.q36@.len() > 0,
{
    let empty = String::new();
    match obj_get(m, "qimei") {
        None => Ok(None),
        Some(v) => match v {
            JsonValue::Obj(entries) => {
                let q16 = match parse_str(v2, entries, "q16", &empty) {
                    Ok(s) => s,
                    Err(_) => {
                        return Err(field_err("qimei"));
                    },
                };
                let q36 = match parse_str(v2, entries, "q36", &empty) {
                    Ok(s) => s,
                    Err(_) => {
                        return Err(field_err("qimei"));
                    },
                };
                if q16.as_str().is_empty() || q36.as_str().is_empty() {
                    Ok(None)
                } else {
                    Ok(Some(Qimei { q16, q36 }))
                }
            },
            _ => Err(field_err("qimei")),
        },
    }
}

/// Decodes the device fields from the object that holds them (the root for
/// version 1, the `data` object for version 2).
fn decode_fields(v2: bool, m: &Vec<(String, JsonValue)>, fallback: &DeviceIdentity) -> (r: Result<
    DeviceIdentity,
    FormatError,
>)
    ensures
        match spec_decode_fields(v2, m@, fallback@) {
            Ok(d) => r matches Ok(v) && v@ == d && v.wf(),
            Err(e) => r matches Err(x) && x@ == e,
        },
{
    let display = match parse_str(v2, m, "display", &fallback.display) {
        Ok(s) => s,
        Err(e) => { return Err(e) },
    };
    let product = match parse_str(v2, m, "product", &fallback.product) {
        Ok(s) => s,
        Err(e) => { return Err(e) },
    };
    let device = match parse_str(v2, m, "device", &fallback.device) {
        Ok(s) => s,
        Err(e) => { return Err(e) },
    };
    let board = match parse_str(v2, m, "board", &fallback.board) {
        Ok(s) => s,
        Err(e) => { return Err(e) },
    };
    let model = match parse_str(v2, m, "model", &fallback.model) {
        Ok(s) => s,
        Err(e) => { return Err(e) },
    };
    let finger_print = match parse_str(v2, m, "fingerprint", &fallback.finger_print) {
        Ok(s) => s,
        Err(e) => { return Err(e) },
    };
    let boot_id = match parse_str(v2, m, "bootId", &fallback.boot_id) {
        Ok(s) => s,
        Err(e) => { return Err(e) },
    };
    let proc_version = match parse_str(v2, m, "procVersion", &fallback.proc_version) {
        Ok(s) => s,
        Err(e) => { return Err(e) },
    };
    let imei = match parse_str(v2, m, "imei", &fallback.imei) {
        Ok(s) => s,
        Err(e) => { return Err(e) },
    };
    let brand = match parse_str(v2, m, "brand", &fallback.brand) {
        Ok(s) => s,
        Err(e) => { return Err(e) },
    };
    let bootloader = match parse_str(v2, m, "bootloader", &fallback.bootloader) {
        Ok(s) => s,
        Err(e) => { return Err(e) },
    };
    let base_band = match parse_str(v2, m, "baseBand", &fallback.base_band) {
        Ok(s) => s,
        Err(e) => { return Err(e) },
    };
    let version = match parse_version(v2, m, &fallback.version) {
        Ok(s) => s,
        Err(e) => { return Err(e) },
    };
    let sim_info = match parse_str(v2, m, "simInfo", &fallback.sim_info) {
        Ok(s) => s,
        Err(e) => { return Err(e) },
    };
    let os_type = match parse_str(v2, m, "osType", &fallback.os_type) {
        Ok(s) => s,
        Err(e) => { return Err(e) },
    };
    let mac_address = match parse_str(v2, m, "macAddress", &fallback.mac_address) {
        Ok(s) => s,
        Err(e) => { return Err(e) },
    };
    let ip_address = match parse_bytes(v2, m, "ipAddress", &fallback.ip_address) {
        Ok(s) => s,
        Err(e) => { return Err(e) },
    };
    let wifi_bssid = match parse_str(v2, m, "wifiBSSID", &fallback.wifi_bssid) {
        Ok(s) => s,
        Err(e) => { return Err(e) },
    };
    let wifi_ssid = match parse_str(v2, m, "wifiSSID", &fallback.wifi_ssid) {
        Ok(s) => s,
        Err(e) => { return Err(e) },
    };
    let imsi_md5 = match parse_bytes(v2, m, "imsiMd5", &fallback.imsi_md5) {
        Ok(s) => s,
        Err(e) => { return Err(e) },
    };
    let android_id = match parse_str(v2, m, "androidId", &fallback.android_id) {
        Ok(s) => s,
        Err(e) => { return Err(e) },
    };
    let apn = match parse_str(v2, m, "apn", &fallback.apn) {
        Ok(s) => s,
        Err(e) => { return Err(e) },
    };
    let vendor_name = match parse_str(v2, m, "vendorName", &fallback.vendor_name) {
        Ok(s) => s,
        Err(e) => { return Err(e) },
    };
    let vendor_os_name = match parse_str(v2, m, "vendorOsName", &fallback.vendor_os_name) {
        Ok(s) => s,
        Err(e) => { return Err(e) },
    };
    let qimei = match parse_qimei(v2, m) {
        Ok(s) => s,
        Err(e) => { return Err(e) },
    };
    Ok(
        DeviceIdentity {
            display,
            product,
            device,
            board,
            model,
            finger_print,
            boot_id,
            proc_version,
            imei,
            brand,
            bootloader,
            base_band,
            version,
            sim_info,
            os_type,
            mac_address,
            ip_address,
            wifi_bssid,
            wifi_ssid,
            imsi_md5,
            android_id,
            apn,
            vendor_name,
            vendor_os_name,
            qimei,
        },
    )
}

/// Reads a device identity from a parsed device document.
///
/// The schema version is taken from `deviceInfoVersion` (absent means
/// version 1); any other version fails with
/// [`FormatError::UnknownVersion`], never a silent default.  A field that
/// is present but structurally wrong fails with [`FormatError::Field`]
/// naming it; only a genuinely absent field falls back to `fallback`.
pub fn from_json(doc: &JsonValue, fallback: &DeviceIdentity) -> (r: Result<
    DeviceIdentity,
    FormatError,
>)
    ensures
        match r {
            Ok(d) => spec_from_json(*doc, fallback@) == Ok::<DeviceModel, FormatErrorModel>(d@)
                && d.wf(),
            Err(e) => spec_from_json(*doc, fallback@) == Err::<DeviceModel, FormatErrorModel>(e@),
        },
{
    match doc {
        JsonValue::Obj(root) => {
            let version: i64 = match obj_get(root, "deviceInfoVersion") {
                None => 1,
                Some(v) => match v {
                    JsonValue::Int(i) => *i,
                    _ => -1,
                },
            };
            if version == 1 {
                decode_fields(false, root, fallback)
            } else if version == 2 {
                match obj_get(root, "data") {
                    Some(v) => match v {
                        JsonValue::Obj(data) => decode_fields(true, data, fallback),
                        _ => Err(FormatError::MissingData),
                    },
                    None => Err(FormatError::MissingData),
                }
            } else {
                Err(FormatError::UnknownVersion(version))
            }
        },
        _ => Err(FormatError::NotAnObject),
    }
}

/// A member holding a string.
fn str_entry(key: &str, val: &String) -> (r: (String, JsonValue))
    ensures
        r.0@ == key@,
        r.1 matches JsonValue::Str(s) && s@ == val@,
{
    (String::from_str(key), JsonValue::Str(val.clone()))
}

/// A member holding a binary field as hexadecimal text.
fn hex_entry(key: &str, val: &Vec<u8>) -> (r: (String, JsonValue))
    ensures
        r.0@ == key@,
        r.1 matches JsonValue::Str(s) && s@ == spec_hex_encode(val@),
{
    (String::from_str(key), JsonValue::Str(crate::hexstr::hex_encode(val)))
}

/// Writes a device identity as a version-2 device document: fields under a
/// `data` object, strings stored directly, binary fields as hexadecimal
/// text, the attestation pair written only when present.
///
/// The document is lossless: under every fallback it decodes back to
/// exactly the identity it was written from.
pub fn to_json(d: &DeviceIdentity) -> (r: JsonValue)
    requires
        d.wf(),
    ensures
        r is Obj && spec_version_of(r->Obj_0@) == 2,
        forall|fb: DeviceModel| spec_from_json(r, fb) == Ok::<DeviceModel, FormatErrorModel>(d@),
{
    let mut ventries: Vec<(String, JsonValue)> = Vec::new();
    ventries.push(str_entry("incremental", &d.version.incremental));
    ventries.push(str_entry("release", &d.version.release));
    ventries.push(str_entry("codename", &d.version.codename));
    ventries.push((String::from_str("sdk"), JsonValue::Int(d.version.sdk as i64)));
    let ghost gv = ventries@;

    let mut data: Vec<(String, JsonValue)> = Vec::new();
    data.push(str_entry("display", &d.display));
    data.push(str_entry("product", &d.product));
    data.push(str_entry("device", &d.device));
    data.push(str_entry("board", &d.board));
    data.push(str_entry("model", &d.model));
    data.push(str_entry("fingerprint", &d.finger_print));
    data.push(str_entry("bootId", &d.boot_id));
    data.push(str_entry("procVersion", &d.proc_version));
    data.push(str_entry("imei", &d.imei));
    data.push(str_entry("brand", &d.brand));
    data.push(str_entry("bootloader", &d.bootloader));
    data.push(str_entry("baseBand", &d.base_band));
    data.push((String::from_str("version"), JsonValue::Obj(ventries)));
    data.push(str_entry("simInfo", &d.sim_info));
    data.push(str_entry("osType", &d.os_type));
    data.push(str_entry("macAddress", &d.mac_address));
    data.push(hex_entry("ipAddress", &d.ip_address));
    data.push(str_entry("wifiBSSID", &d.wifi_bssid));
    data.push(str_entry("wifiSSID", &d.wifi_ssid));
    data.push(hex_entry("imsiMd5", &d.imsi_md5));
    data.push(str_entry("androidId", &d.android_id));
    data.push(str_entry("apn", &d.apn));
    data.push(str_entry("vendorName", &d.vendor_name));
    data.push(str_entry("vendorOsName", &d.vendor_os_name));
    match &d.qimei {
        Some(q) => {
            let mut qentries: Vec<(String, JsonValue)> = Vec::new();
            qentries.push(str_entry("q16", &q.q16));
            qentries.push(str_entry("q36", &q.q36));
            data.push((String::from_str("qimei"), JsonValue::Obj(qentries)));
        },
        None => {},
    }
    let ghost gd = data@;

    let mut root: Vec<(String, JsonValue)> = Vec::new();
    root.push((String::from_str("deviceInfoVersion"), JsonValue::Int(2)));
    root.push((String::from_str("data"), JsonValue::Obj(data)));
    let ghost gr = root@;
    let r = JsonValue::Obj(root);

    proof {
        reveal_strlit("deviceInfoVersion");
        reveal_strlit("data");
        reveal_strlit("display");
        reveal_strlit("product");
        reveal_strlit("device");
        reveal_strlit("board");
        reveal_strlit("model");
        reveal_strlit("fingerprint");
        reveal_strlit("bootId");
        reveal_strlit("procVersion");
        reveal_strlit("imei");
        reveal_strlit("brand");
        reveal_strlit("bootloader");
        reveal_strlit("baseBand");
        reveal_strlit("version");
        reveal_strlit("simInfo");
        reveal_strlit("osType");
        reveal_strlit("macAddress");
        reveal_strlit("ipAddress");
        reveal_strlit("wifiBSSID");
        reveal_strlit("wifiSSID");
        reveal_strlit("imsiMd5");
        reveal_strlit("androidId");
        reveal_strlit("apn");
        reveal_strlit("vendorName");
        reveal_strlit("vendorOsName");
        reveal_strlit("qimei");
        reveal_strlit("incremental");
        reveal_strlit("release");
        reveal_strlit("codename");
        reveal_strlit("sdk");
        reveal_strlit("q16");
        reveal_strlit("q36");

        assert(gr[0].0@ == "deviceInfoVersion"@);
        assert(gr[1].0@ == "data"@);
        assert(gd[0].0@ == "display"@);
        assert(gd[1].0@ == "product"@);
        assert(gd[2].0@ == "device"@);
        assert(gd[3].0@ == "board"@);
        assert(gd[4].0@ == "model"@);
        assert(gd[5].0@ == "fingerprint"@);
        assert(gd[6].0@ == "bootId"@);
        assert(gd[7].0@ == "procVersion"@);
        assert(gd[8].0@ == "imei"@);
        assert(gd[9].0@ == "brand"@);
        assert(gd[10].0@ == "bootloader"@);
        assert(gd[11].0@ == "baseBand"@);
        assert(gd[12].0@ == "version"@);
        assert(gd[13].0@ == "simInfo"@);
        assert(gd[14].0@ == "osType"@);
        assert(gd[15].0@ == "macAddress"@);
        assert(gd[16].0@ == "ipAddress"@);
        assert(gd[17].0@ == "wifiBSSID"@);
        assert(gd[18].0@ == "wifiSSID"@);
        assert(gd[19].0@ == "imsiMd5"@);
        assert(gd[20].0@ == "androidId"@);
        assert(gd[21].0@ == "apn"@);
        assert(gd[22].0@ == "vendorName"@);
        assert(gd[23].0@ == "vendorOsName"@);
        assert(gv[0].0@ == "incremental"@);
        assert(gv[1].0@ == "release"@);
        assert(gv[2].0@ == "codename"@);
        assert(gv[3].0@ == "sdk"@);
        assert("display"@ != "product"@) by {
            assert("display"@[0] == 'd');
            assert("product"@[0] == 'p');
        }
        assert("board"@ != "model"@) by {
            assert("board"@[0] == 'b');
            assert("model"@[0] == 'm');
        }
        assert("device"@ != "bootId"@) by {
            assert("device"@[0] == 'd');
            assert("bootId"@[0] == 'b');
        }
        assert("device"@ != "osType"@ && "bootId"@ != "osType"@) by {
            assert("device"@[0] == 'd');
            assert("bootId"@[0] == 'b');
            assert("osType"@[0] == 'o');
        }
        assert("fingerprint"@ != "procVersion"@) by {
            assert("fingerprint"@[0] == 'f');
            assert("procVersion"@[0] == 'p');
        }
        assert("display"@ != "version"@ && "product"@ != "version"@) by {
            assert("display"@[0] == 'd');
            assert("product"@[0] == 'p');
            assert("version"@[0] == 'v');
        }
        assert("display"@ != "simInfo"@ && "product"@ != "simInfo"@ && "version"@
            != "simInfo"@) by {
            assert("display"@[0] == 'd');
            assert("product"@[0] == 'p');
            assert("version"@[0] == 'v');
            assert("simInfo"@[0] == 's');
        }
        assert("display"@ != "imsiMd5"@ && "product"@ != "imsiMd5"@ && "version"@ != "imsiMd5"@
            && "simInfo"@ != "imsiMd5"@) by {
            assert("display"@[0] == 'd');
            assert("product"@[0] == 'p');
            assert("version"@[0] == 'v');
            assert("simInfo"@[0] == 's');
            assert("imsiMd5"@[0] == 'i');
        }
        assert("board"@ != "brand"@ && "model"@ != "brand"@) by {
            assert("board"@[1] == 'o');
            assert("brand"@[1] == 'r');
            assert("model"@[0] == 'm');
            assert("brand"@[0] == 'b');
        }
        assert("board"@ != "qimei"@ && "model"@ != "qimei"@ && "brand"@ != "qimei"@) by {
            assert("board"@[0] == 'b');
            assert("model"@[0] == 'm');
            assert("brand"@[0] == 'b');
            assert("qimei"@[0] == 'q');
        }
        assert("bootloader"@ != "macAddress"@ && "bootloader"@ != "vendorName"@ && "macAddress"@
            != "vendorName"@) by {
            assert("bootloader"@[0] == 'b');
            assert("macAddress"@[0] == 'm');
            assert("vendorName"@[0] == 'v');
        }
        assert("baseBand"@ != "wifiSSID"@) by {
            assert("baseBand"@[0] == 'b');
            assert("wifiSSID"@[0] == 'w');
        }
        assert("ipAddress"@ != "wifiBSSID"@ && "ipAddress"@ != "androidId"@ && "wifiBSSID"@
            != "androidId"@) by {
            assert("ipAddress"@[0] == 'i');
            assert("wifiBSSID"@[0] == 'w');
            assert("androidId"@[0] == 'a');
        }
        assert("q16"@ != "q36"@) by {
            assert("q16"@[1] == '1');
            assert("q36"@[1] == '3');
        }
        lemma_obj_get_found(gr, "deviceInfoVersion"@, 0);
        lemma_obj_get_found(gr, "data"@, 1);
        assert(spec_version_of(gr) == 2);

        lemma_obj_get_found(gd, "display"@, 0);
        lemma_obj_get_found(gd, "product"@, 1);
        lemma_obj_get_found(gd, "device"@, 2);
        lemma_obj_get_found(gd, "board"@, 3);
        lemma_obj_get_found(gd, "model"@, 4);
        lemma_obj_get_found(gd, "fingerprint"@, 5);
        lemma_obj_get_found(gd, "bootId"@, 6);
        lemma_obj_get_found(gd, "procVersion"@, 7);
        lemma_obj_get_found(gd, "imei"@, 8);
        lemma_obj_get_found(gd, "brand"@, 9);
        lemma_obj_get_found(gd, "bootloader"@, 10);
        lemma_obj_get_found(gd, "baseBand"@, 11);
        lemma_obj_get_found(gd, "version"@, 12);
        lemma_obj_get_found(gd, "simInfo"@, 13);
        lemma_obj_get_found(gd, "osType"@, 14);
        lemma_obj_get_found(gd, "macAddress"@, 15);
        lemma_obj_get_found(gd, "ipAddress"@, 16);
        lemma_obj_get_found(gd, "wifiBSSID"@, 17);
        lemma_obj_get_found(gd, "wifiSSID"@, 18);
        lemma_obj_get_found(gd, "imsiMd5"@, 19);
        lemma_obj_get_found(gd, "androidId"@, 20);
        lemma_obj_get_found(gd, "apn"@, 21);
        lemma_obj_get_found(gd, "vendorName"@, 22);
        lemma_obj_get_found(gd, "vendorOsName"@, 23);
        if d.qimei is Some {
            lemma_obj_get_found(gd, "qimei"@, 24);
            let gq = gd[24].1->Obj_0@;
            assert(gq[0].0@ == "q16"@);
            assert(gq[1].0@ == "q36"@);
            lemma_obj_get_found(gq, "q16"@, 0);
            lemma_obj_get_found(gq, "q36"@, 1);
        } else {
            lemma_obj_get_absent(gd, "qimei"@);
        }

        lemma_obj_get_found(gv, "incremental"@, 0);
        lemma_obj_get_found(gv, "release"@, 1);
        lemma_obj_get_found(gv, "codename"@, 2);
        lemma_obj_get_found(gv, "sdk"@, 3);

        lemma_hex_round_trip(d.ip_address@);
        lemma_hex_round_trip(d.imsi_md5@);

        assert forall|fb: DeviceModel| spec_from_json(r, fb) == Ok::<
            DeviceModel,
            FormatErrorModel,
        >(d@) by {
            assert(spec_decode_fields(true, gd, fb) == Ok::<DeviceModel, FormatErrorModel>(d@));
        }
    }
    r
}

impl FormatError {
    /// A short description of the error, for reporting.
    pub fn describe(&self) -> String {
        match self {
            FormatError::NotAnObject => String::from_str("the document root is not an object"),
            FormatError::UnknownVersion(_) => String::from_str(
                "unknown `deviceInfoVersion` value",
            ),
            FormatError::MissingData => String::from_str("no `data` field was found"),
            FormatError::Field(k) => {
                let mut s = String::from_str("malformed field `");
                s.append(k.as_str());
                s.append("`");
                s
            },
        }
    }
}

} // verus!
