use vstd::prelude::*;

verus! {

/// One record the operator wants kept pointed at the current address,
/// as read from configuration: the zone it lives in and its full name.
#[derive(Debug, PartialEq)]
pub struct RecordConfig {
    pub zone_id: String,
    pub name: String,
}

/// Spec-level image of a [`RecordConfig`]: the same two fields as
/// character sequences.
pub struct RecordConfigV {
    pub zone_id: Seq<char>,
    pub name: Seq<char>,
}

impl View for RecordConfig {
    type V = RecordConfigV;

    open spec fn view(&self) -> RecordConfigV {
        RecordConfigV { zone_id: self.zone_id@, name: self.name@ }
    }
}

impl DeepView for RecordConfig {
    type V = RecordConfigV;

    open spec fn deep_view(&self) -> RecordConfigV {
        self@
    }
}

impl Clone for RecordConfig {
    fn clone(&self) -> (r: Self)
        ensures
            r@ == self@,
    {
        RecordConfig { zone_id: self.zone_id.clone(), name: self.name.clone() }
    }
}

/// The content of one DNS record, reduced to what reconciliation reads:
/// whether it is an A record and, if so, the stored IPv4 address
/// (packed into the numeric form, most significant octet first).
#[derive(Clone, Copy, PartialEq, Eq, Structural, Debug)]
pub enum RecordContent {
    A { ip: u32 },
    Other,
}

/// One DNS record as the provider currently stores it: where it lives,
/// its name, the provider's identifier for it, and its content.
#[derive(Debug, PartialEq)]
pub struct ObservedRecord {
    pub zone_id: String,
    pub name: String,
    pub record_id: String,
    pub content: RecordContent,
}

/// Spec-level image of an [`ObservedRecord`].
pub struct ObservedRecordV {
    pub zone_id: Seq<char>,
    pub name: Seq<char>,
    pub record_id: Seq<char>,
    pub content: RecordContent,
}

impl View for ObservedRecord {
    type V = ObservedRecordV;

    open spec fn view(&self) -> ObservedRecordV {
        ObservedRecordV {
            zone_id: self.zone_id@,
            name: self.name@,
            record_id: self.record_id@,
            content: self.content,
        }
    }
}

impl DeepView for ObservedRecord {
    type V = ObservedRecordV;

    open spec fn deep_view(&self) -> ObservedRecordV {
        self@
    }
}

impl Clone for ObservedRecord {
    fn clone(&self) -> (r: Self)
        ensures
            r@ == self@,
    {
        ObservedRecord {
            zone_id: self.zone_id.clone(),
            name: self.name.clone(),
            record_id: self.record_id.clone(),
            content: self.content,
        }
    }
}

/// The provider section of the configuration: the API token and the
/// ordered list of records to keep reconciled.
#[derive(Debug)]
pub struct CloudflareConfig {
    pub token: String,
    pub records: Vec<RecordConfig>,
}

/// Packs a dotted-quad IPv4 address into its numeric form, most
/// significant octet first, so that two addresses are equal exactly when
/// their four octets are.
pub fn ipv4(a: u8, b: u8, c: u8, d: u8) -> (ip: u32)
    ensures
        ip == (a as u32) * 0x100_0000 + (b as u32) * 0x1_0000 + (c as u32) * 0x100 + (d as u32),
{
    (a as u32) * 0x100_0000 + (b as u32) * 0x1_0000 + (c as u32) * 0x100 + (d as u32)
}

} // verus!
