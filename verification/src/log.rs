//! NVMe log pages.
//!
//! Each typed log page ([`SmartLog`], [`FirmwareSlotLog`], [`ErrorLogEntry`])
//! holds the fields of the corresponding libnvme `nvme_*_log` structure as
//! plain values, and decodes them as the NVMe specification defines.

use vstd::prelude::*;
use vstd::string::StringSliceAdditionalSpecFns;
use vstd::utf8::valid_utf8;
use crate::error::{Error, Result};
use crate::util::{utf8_error_for, all_ascii, ascii_text, fixed_ascii_to_str, trim_padding};
use crate::text::{
    decimal, hex_digits, lemma_shows_after, push_decimal, shows_after, push_hex, push_signed_decimal, signed_decimal, str_debug,
    str_debug_text,
};
use vstd::utf8::{decode_utf8, encode_utf8_decode_utf8};
use vstd::seq_lib::lemma_concat_associative;

verus! {

/// The unsigned integer whose little-endian encoding is `b` (least
/// significant byte first).
pub open spec fn le_value(b: Seq<u8>) -> nat
    decreases b.len(),
{
    if b.len() == 0 {
        0
    } else {
        b[0] as nat + 256 * le_value(b.drop_first())
    }
}

/// 256 to the power `n`.
pub open spec fn pow256(n: nat) -> nat
    decreases n,
{
    if n == 0 {
        1
    } else {
        256 * pow256((n - 1) as nat)
    }
}

/// A little-endian value of `n` bytes is below 256^n.
pub proof fn lemma_le_value_bound(b: Seq<u8>)
    ensures
        le_value(b) < pow256(b.len()),
    decreases b.len(),
{
    if b.len() > 0 {
        lemma_le_value_bound(b.drop_first());
    }
}

/// `pow256` is monotonic.
pub proof fn lemma_pow256_monotonic(m: nat, n: nat)
    requires
        m <= n,
    ensures
        pow256(m) <= pow256(n),
    decreases n,
{
    if m < n {
        lemma_pow256_monotonic(m, (n - 1) as nat);
    }
}

/// Decode up to 16 little-endian bytes into an integer.
pub fn le_decode(b: &[u8]) -> (r: u128)
    requires
        b@.len() <= 16,
    ensures
        r == le_value(b@),
{
    let n: usize = b.len();
    let mut i: usize = n;
    let mut acc: u128 = 0;
    proof {
        assert(b@.subrange(n as int, n as int) =~= Seq::<u8>::empty());
        assert(pow256(16) == 0x1_0000_0000_0000_0000_0000_0000_0000_0000nat) by {
            reveal_with_fuel(pow256, 17);
        }
    }
    while i > 0
        invariant
            n == b@.len(),
            n <= 16,
            i <= n,
            acc == le_value(b@.subrange(i as int, n as int)),
            pow256(16) == 0x1_0000_0000_0000_0000_0000_0000_0000_0000nat,
        decreases i,
    {
        proof {
            let tail = b@.subrange(i as int, n as int);
            lemma_le_value_bound(tail);
            lemma_pow256_monotonic(tail.len(), 15);
            assert(pow256(16) == 256 * pow256(15));
            assert(b@.subrange(i - 1, n as int).drop_first() =~= tail);
        }
        acc = acc * 256 + b[i - 1] as u128;
        i = i - 1;
    }
    proof {
        assert(b@.subrange(0, n as int) =~= b@);
    }
    acc
}

/// Decoded SMART / Health Information log page (LID 02h).
///
/// The fields are those of libnvme's `nvme_smart_log`. Counters that the
/// spec defines as 128-bit are exposed as `u128`. Times are reported in
/// minutes (per the NVMe spec).
#[derive(Clone, Copy)]
pub struct SmartLog {
    pub critical_warning: u8,
    pub temperature: [u8; 2],
    pub avail_spare: u8,
    pub spare_thresh: u8,
    pub percent_used: u8,
    pub endu_grp_crit_warn_sumry: u8,
    pub data_units_read: [u8; 16],
    pub data_units_written: [u8; 16],
    pub host_reads: [u8; 16],
    pub host_writes: [u8; 16],
    pub ctrl_busy_time: [u8; 16],
    pub power_cycles: [u8; 16],
    pub power_on_hours: [u8; 16],
    pub unsafe_shutdowns: [u8; 16],
    pub media_errors: [u8; 16],
    pub num_err_log_entries: [u8; 16],
    pub warning_temp_time: u32,
    pub critical_comp_time: u32,
    pub temp_sensor: [u16; 8],
}

/// The Celsius reading of a Kelvin temperature, wrapped to `i16` as the
/// conversion `(kelvin as i32 - 273) as i16` does.
pub open spec fn celsius_of(kelvin: u16) -> i16 {
    (kelvin - 273) as i16
}

/// The debugging text of a SMART log: its critical warning, temperature in
/// Celsius, percentage used, power cycles, power-on hours and unsafe
/// shutdowns, each in decimal.
pub open spec fn smart_log_debug_text(log: SmartLog) -> Seq<char> {
    "SmartLog { critical_warning: "@ + decimal(log.critical_warning as nat)
        + ", temperature_celsius: "@ + signed_decimal(
        celsius_of(le_value(log.temperature@) as u16) as int,
    ) + ", percentage_used: "@ + decimal(log.percent_used as nat) + ", power_cycles: "@
        + decimal(le_value(log.power_cycles@)) + ", power_on_hours: "@ + decimal(
        le_value(log.power_on_hours@),
    ) + ", unsafe_shutdowns: "@ + decimal(le_value(log.unsafe_shutdowns@)) + " }"@
}

/// The debugging text of a SMART log shows each field as its accessor
/// returns it, in decimal, after the field's name: the critical warning,
/// the temperature in Celsius (Kelvin minus 273, wrapped into `i16` as the
/// conversion does; negative values with a `-`), the percentage used (above
/// 100 too), the power cycles, the power-on hours and the unsafe shutdowns.
pub proof fn smart_log_debug_text_shows_each_field(log: SmartLog)
    ensures
        shows_after(
            smart_log_debug_text(log),
            "SmartLog { critical_warning: "@,
            decimal(log.critical_warning as nat),
        ),
        shows_after(
            smart_log_debug_text(log),
            ", temperature_celsius: "@,
            signed_decimal(
                if le_value(log.temperature@) - 273 > 32767 {
                    le_value(log.temperature@) - 273 - 65536
                } else {
                    le_value(log.temperature@) - 273
                },
            ),
        ),
        shows_after(smart_log_debug_text(log), ", percentage_used: "@, decimal(log.percent_used as nat)),
        shows_after(
            smart_log_debug_text(log),
            ", power_cycles: "@,
            decimal(le_value(log.power_cycles@)),
        ),
        shows_after(
            smart_log_debug_text(log),
            ", power_on_hours: "@,
            decimal(le_value(log.power_on_hours@)),
        ),
        shows_after(
            smart_log_debug_text(log),
            ", unsafe_shutdowns: "@,
            decimal(le_value(log.unsafe_shutdowns@)),
        ),
{
    lemma_le_value_bound(log.temperature@);
    assert(pow256(2) == 65536) by {
        reveal_with_fuel(pow256, 3);
    }
    let k: u16 = le_value(log.temperature@) as u16;
    assert(k == le_value(log.temperature@));
    assert(((k - 273) as i16) == (if k - 273 > 32767 {
        k - 273 - 65536
    } else {
        k - 273
    })) by (bit_vector);
    reveal_strlit(", temperature_celsius: ");
    reveal_strlit(", percentage_used: ");
    reveal_strlit(", power_cycles: ");
    reveal_strlit(", power_on_hours: ");
    reveal_strlit(", unsafe_shutdowns: ");
    reveal_strlit(" }");
    let p0 = "SmartLog { critical_warning: "@;
    let p1 = decimal(log.critical_warning as nat);
    let p2 = ", temperature_celsius: "@;
    let p3 = signed_decimal(celsius_of(le_value(log.temperature@) as u16) as int);
    let p4 = ", percentage_used: "@;
    let p5 = decimal(log.percent_used as nat);
    let p6 = ", power_cycles: "@;
    let p7 = decimal(le_value(log.power_cycles@));
    let p8 = ", power_on_hours: "@;
    let p9 = decimal(le_value(log.power_on_hours@));
    let p10 = ", unsafe_shutdowns: "@;
    let p11 = decimal(le_value(log.unsafe_shutdowns@));
    let p12 = " }"@;
    let l1 = p0;
    let l2 = l1 + p1;
    let l3 = l2 + p2;
    let l4 = l3 + p3;
    let l5 = l4 + p4;
    let l6 = l5 + p5;
    let l7 = l6 + p6;
    let l8 = l7 + p7;
    let l9 = l8 + p8;
    let l10 = l9 + p9;
    let l11 = l10 + p10;
    let l12 = l11 + p11;
    let l13 = l12 + p12;
    let r12 = p12;
    let r11 = p11 + r12;
    let r10 = p10 + r11;
    let r9 = p9 + r10;
    let r8 = p8 + r9;
    let r7 = p7 + r8;
    let r6 = p6 + r7;
    let r5 = p5 + r6;
    let r4 = p4 + r5;
    let r3 = p3 + r4;
    let r2 = p2 + r3;
    let r1 = p1 + r2;
    assert(smart_log_debug_text(log) == l13);
    lemma_concat_associative(l11, p11, r12);
    lemma_concat_associative(l10, p10, r11);
    lemma_concat_associative(l9, p9, r10);
    lemma_concat_associative(l8, p8, r9);
    lemma_concat_associative(l7, p7, r8);
    lemma_concat_associative(l6, p6, r7);
    lemma_concat_associative(l5, p5, r6);
    lemma_concat_associative(l4, p4, r5);
    lemma_concat_associative(l3, p3, r4);
    lemma_concat_associative(l2, p2, r3);
    lemma_concat_associative(l1, p1, r2);
    assert(Seq::<char>::empty() + p0 =~= p0);
    lemma_shows_after(Seq::<char>::empty(), p0, p1, r2);
    lemma_shows_after(l2, p2, p3, r4);
    lemma_shows_after(l4, p4, p5, r6);
    lemma_shows_after(l6, p6, p7, r8);
    lemma_shows_after(l8, p8, p9, r10);
    lemma_shows_after(l10, p10, p11, r12);
}

impl SmartLog {
    /// Debugging text:
    /// `SmartLog { critical_warning: .., temperature_celsius: .., percentage_used: .., power_cycles: .., power_on_hours: .., unsafe_shutdowns: .. }`
    /// with each value as its accessor returns it, in decimal.
    pub fn to_debug_string(&self) -> (r: String)
        ensures
            r@ == smart_log_debug_text(*self),
    {
        let mut s = String::from_str("SmartLog { critical_warning: ");
        push_decimal(&mut s, self.critical_warning() as u128);
        s.append(", temperature_celsius: ");
        push_signed_decimal(&mut s, self.temperature_celsius());
        s.append(", percentage_used: ");
        push_decimal(&mut s, self.percentage_used() as u128);
        s.append(", power_cycles: ");
        push_decimal(&mut s, self.power_cycles());
        s.append(", power_on_hours: ");
        push_decimal(&mut s, self.power_on_hours());
        s.append(", unsafe_shutdowns: ");
        push_decimal(&mut s, self.unsafe_shutdowns());
        s.append(" }");
        s
    }

    /// Critical warning bitfield: spare, temperature, degraded reliability,
    /// media read-only, volatile memory backup failure, persistent memory
    /// read-only.
    pub fn critical_warning(&self) -> (r: u8)
        ensures
            r == self.critical_warning,
    {
        self.critical_warning
    }

    /// Composite temperature in Kelvin.
    pub fn temperature_kelvin(&self) -> (r: u16)
        ensures
            r == le_value(self.temperature@),
    {
        proof {
            reveal_with_fuel(le_value, 3);
        }
        self.temperature[0] as u16 + self.temperature[1] as u16 * 256
    }

    /// Composite temperature in Celsius.
    ///
    /// Exactly `kelvin - 273` whenever that fits an `i16` (every Kelvin
    /// reading up to 33040).
    pub fn temperature_celsius(&self) -> (r: i16)
        ensures
            r == celsius_of(le_value(self.temperature@) as u16),
            le_value(self.temperature@) <= 33040 ==> r == le_value(self.temperature@) - 273,
    {
        let k: u16 = self.temperature_kelvin();
        #[verifier::truncate]
        let r: i16 = (k as i32 - 273) as i16;
        proof {
            if k <= 33040 {
                assert(((k as i32 - 273) as i16) == k - 273) by (bit_vector)
                    requires
                        k <= 33040,
                ;
            }
        }
        r
    }

    /// Available spare capacity as a percentage of normalized spare.
    pub fn available_spare(&self) -> (r: u8)
        ensures
            r == self.avail_spare,
    {
        self.avail_spare
    }

    /// Threshold below which `critical_warning` flags the spare condition.
    pub fn available_spare_threshold(&self) -> (r: u8)
        ensures
            r == self.spare_thresh,
    {
        self.spare_thresh
    }

    /// Vendor-specific estimate of life used, as a percentage. May exceed 100.
    pub fn percentage_used(&self) -> (r: u8)
        ensures
            r == self.percent_used,
    {
        self.percent_used
    }

    /// Endurance group critical warning summary.
    pub fn endurance_group_critical_warning(&self) -> (r: u8)
        ensures
            r == self.endu_grp_crit_warn_sumry,
    {
        self.endu_grp_crit_warn_sumry
    }

    /// Number of 512-byte data units the host has read from the controller,
    /// in thousands. Multiply by 1000 and by 512 for total bytes read.
    pub fn data_units_read(&self) -> (r: u128)
        ensures
            r == le_value(self.data_units_read@),
    {
        le_decode(self.data_units_read.as_slice())
    }

    /// Number of 512-byte data units the host has written to the controller,
    /// in thousands. See [`data_units_read`](Self::data_units_read).
    pub fn data_units_written(&self) -> (r: u128)
        ensures
            r == le_value(self.data_units_written@),
    {
        le_decode(self.data_units_written.as_slice())
    }

    /// Number of read commands completed by the controller.
    pub fn host_read_commands(&self) -> (r: u128)
        ensures
            r == le_value(self.host_reads@),
    {
        le_decode(self.host_reads.as_slice())
    }

    /// Number of write commands completed by the controller.
    pub fn host_write_commands(&self) -> (r: u128)
        ensures
            r == le_value(self.host_writes@),
    {
        le_decode(self.host_writes.as_slice())
    }

    /// Time the controller has been busy with I/O commands, in minutes.
    pub fn controller_busy_time_minutes(&self) -> (r: u128)
        ensures
            r == le_value(self.ctrl_busy_time@),
    {
        le_decode(self.ctrl_busy_time.as_slice())
    }

    /// Number of power-on/off cycles experienced by the controller.
    pub fn power_cycles(&self) -> (r: u128)
        ensures
            r == le_value(self.power_cycles@),
    {
        le_decode(self.power_cycles.as_slice())
    }

    /// Cumulative power-on time in hours.
    pub fn power_on_hours(&self) -> (r: u128)
        ensures
            r == le_value(self.power_on_hours@),
    {
        le_decode(self.power_on_hours.as_slice())
    }

    /// Number of unsafe shutdowns (loss of power without a normal shutdown).
    pub fn unsafe_shutdowns(&self) -> (r: u128)
        ensures
            r == le_value(self.unsafe_shutdowns@),
    {
        le_decode(self.unsafe_shutdowns.as_slice())
    }

    /// Number of media or data integrity errors detected.
    pub fn media_errors(&self) -> (r: u128)
        ensures
            r == le_value(self.media_errors@),
    {
        le_decode(self.media_errors.as_slice())
    }

    /// Number of entries in the Error Information Log.
    pub fn num_error_log_entries(&self) -> (r: u128)
        ensures
            r == le_value(self.num_err_log_entries@),
    {
        le_decode(self.num_err_log_entries.as_slice())
    }

    /// Time the composite temperature has exceeded the warning threshold,
    /// in minutes.
    pub fn warning_temp_time_minutes(&self) -> (r: u32)
        ensures
            r == self.warning_temp_time,
    {
        self.warning_temp_time
    }

    /// Time the composite temperature has exceeded the critical threshold,
    /// in minutes.
    pub fn critical_temp_time_minutes(&self) -> (r: u32)
        ensures
            r == self.critical_comp_time,
    {
        self.critical_comp_time
    }

    /// Temperature sensor reading in Kelvin (`index` is `1..=8`).
    /// Returns `None` for out-of-range indices or unreported sensors (`0`).
    pub fn temperature_sensor_kelvin(&self, index: u8) -> (r: Option<u16>)
        ensures
            r == (if 1 <= index <= 8 && self.temp_sensor@[index - 1] != 0 {
                Some(self.temp_sensor@[index - 1])
            } else {
                None::<u16>
            }),
    {
        if !(index >= 1 && index <= 8) {
            return None;
        }
        let value: u16 = self.temp_sensor[(index - 1) as usize];
        if value == 0 {
            None
        } else {
            Some(value)
        }
    }
}

/// Firmware Slot Information log page (LID 03h).
///
/// Reports which firmware slot is currently active, which (if any) is
/// scheduled for activation on next reset, and the firmware revision string
/// stored in each of the up-to-7 slots (fields of libnvme's
/// `nvme_firmware_slot`).
#[derive(Clone, Copy)]
pub struct FirmwareSlotLog {
    pub afi: u8,
    pub frs: [[u8; 8]; 7],
}

/// The debugging text of an optional slot number: `Some(n)` or `None`.
pub open spec fn slot_number_text(slot: nat) -> Seq<char> {
    if slot == 0 {
        "None"@
    } else {
        "Some("@ + decimal(slot) + ")"@
    }
}

/// The debugging text of a firmware revision field, as
/// [`FirmwareSlotLog::slot_firmware`] reads it: `Some` and the quoted
/// revision when it decodes, `None` when it is not UTF-8.
pub open spec fn slot_revision_text(field: Seq<u8>) -> Seq<char> {
    let text = trim_padding(field);
    if valid_utf8(text) {
        "Some("@ + str_debug_text(decode_utf8(text)) + ")"@
    } else {
        "None"@
    }
}

/// The debugging text of a Firmware Slot log: the active slot, the slot to
/// activate next, and the revisions of the first three slots.
pub open spec fn firmware_slot_log_debug_text(log: FirmwareSlotLog) -> Seq<char> {
    "FirmwareSlotLog { active_slot: "@ + decimal((log.afi % 8) as nat)
        + ", next_slot_to_activate: "@ + slot_number_text(((log.afi / 16) % 8) as nat)
        + ", slot_1: "@ + slot_revision_text(log.frs@[0]@) + ", slot_2: "@ + slot_revision_text(
        log.frs@[1]@,
    ) + ", slot_3: "@ + slot_revision_text(log.frs@[2]@) + " }"@
}

/// The label of slot `k + 1` in the debugging text of a Firmware Slot log.
pub open spec fn slot_label(k: int) -> Seq<char> {
    if k == 0 {
        ", slot_1: "@
    } else if k == 1 {
        ", slot_2: "@
    } else {
        ", slot_3: "@
    }
}

/// The debugging text of a Firmware Slot log shows the active slot (bits
/// 0–2 of AFI) in decimal; the slot to activate next (bits 4–6 of AFI) as
/// `Some(n)` whenever those bits are not zero, whatever the active slot, and
/// `None` only when they are; and slots 1 to 3 as `Some` and the quoted
/// revision, trimmed of padding, or `None` where it is not UTF-8.
pub proof fn firmware_slot_log_debug_text_shows_each_field(log: FirmwareSlotLog)
    ensures
        shows_after(
            firmware_slot_log_debug_text(log),
            "FirmwareSlotLog { active_slot: "@,
            decimal((log.afi % 8) as nat),
        ),
        shows_after(
            firmware_slot_log_debug_text(log),
            ", next_slot_to_activate: "@,
            if (log.afi / 16) % 8 == 0 {
                "None"@
            } else {
                "Some("@ + decimal(((log.afi / 16) % 8) as nat) + ")"@
            },
        ),
        forall|k: int|
            0 <= k < 3 ==> shows_after(
                firmware_slot_log_debug_text(log),
                #[trigger] slot_label(k),
                if valid_utf8(trim_padding(log.frs@[k]@)) {
                    "Some("@ + str_debug_text(decode_utf8(trim_padding(log.frs@[k]@))) + ")"@
                } else {
                    "None"@
                },
            ),
{
    reveal_strlit(", next_slot_to_activate: ");
    reveal_strlit(", slot_1: ");
    reveal_strlit(", slot_2: ");
    reveal_strlit(", slot_3: ");
    reveal_strlit(" }");
    let p0 = "FirmwareSlotLog { active_slot: "@;
    let p1 = decimal((log.afi % 8) as nat);
    let p2 = ", next_slot_to_activate: "@;
    let p3 = slot_number_text(((log.afi / 16) % 8) as nat);
    let p4 = ", slot_1: "@;
    let p5 = slot_revision_text(log.frs@[0]@);
    let p6 = ", slot_2: "@;
    let p7 = slot_revision_text(log.frs@[1]@);
    let p8 = ", slot_3: "@;
    let p9 = slot_revision_text(log.frs@[2]@);
    let p10 = " }"@;
    let l1 = p0;
    let l2 = l1 + p1;
    let l3 = l2 + p2;
    let l4 = l3 + p3;
    let l5 = l4 + p4;
    let l6 = l5 + p5;
    let l7 = l6 + p6;
    let l8 = l7 + p7;
    let l9 = l8 + p8;
    let l10 = l9 + p9;
    let l11 = l10 + p10;
    let r10 = p10;
    let r9 = p9 + r10;
    let r8 = p8 + r9;
    let r7 = p7 + r8;
    let r6 = p6 + r7;
    let r5 = p5 + r6;
    let r4 = p4 + r5;
    let r3 = p3 + r4;
    let r2 = p2 + r3;
    let r1 = p1 + r2;
    assert(firmware_slot_log_debug_text(log) == l11);
    lemma_concat_associative(l9, p9, r10);
    lemma_concat_associative(l8, p8, r9);
    lemma_concat_associative(l7, p7, r8);
    lemma_concat_associative(l6, p6, r7);
    lemma_concat_associative(l5, p5, r6);
    lemma_concat_associative(l4, p4, r5);
    lemma_concat_associative(l3, p3, r4);
    lemma_concat_associative(l2, p2, r3);
    lemma_concat_associative(l1, p1, r2);
    assert(Seq::<char>::empty() + p0 =~= p0);
    lemma_shows_after(Seq::<char>::empty(), p0, p1, r2);
    lemma_shows_after(l2, p2, p3, r4);
    lemma_shows_after(l4, p4, p5, r6);
    lemma_shows_after(l6, p6, p7, r8);
    lemma_shows_after(l8, p8, p9, r10);
}

impl FirmwareSlotLog {
    /// Append the debugging text of the revision in `slot` (`1..=3`).
    fn push_slot_revision(&self, s: &mut String, slot: u8)
        requires
            1 <= slot <= 3,
        ensures
            final(s)@ == old(s)@ + slot_revision_text(self.frs@[slot - 1]@),
    {
        match self.slot_firmware(slot) {
            Ok(text) => {
                proof {
                    encode_utf8_decode_utf8(text@);
                }
                s.append("Some(");
                let quoted = str_debug(text);
                s.append(quoted.as_str());
                s.append(")");
            },
            Err(_) => {
                s.append("None");
            },
        }
    }

    /// Debugging text:
    /// `FirmwareSlotLog { active_slot: .., next_slot_to_activate: .., slot_1: .., slot_2: .., slot_3: .. }`,
    /// the slot to activate next as `Some(n)` or `None` and each revision as
    /// `Some("..")`, or `None` where it is not UTF-8.
    pub fn to_debug_string(&self) -> (r: String)
        ensures
            r@ == firmware_slot_log_debug_text(*self),
    {
        let mut s = String::from_str("FirmwareSlotLog { active_slot: ");
        push_decimal(&mut s, self.active_slot() as u128);
        s.append(", next_slot_to_activate: ");
        match self.next_slot_to_activate() {
            Some(next) => {
                s.append("Some(");
                push_decimal(&mut s, next as u128);
                s.append(")");
            },
            None => {
                s.append("None");
            },
        }
        s.append(", slot_1: ");
        self.push_slot_revision(&mut s, 1);
        s.append(", slot_2: ");
        self.push_slot_revision(&mut s, 2);
        s.append(", slot_3: ");
        self.push_slot_revision(&mut s, 3);
        s.append(" }");
        s
    }

    /// Raw Active Firmware Info byte (AFI).
    ///
    /// Bits 0–2: currently active slot. Bits 4–6: slot scheduled for
    /// activation on next reset (`0` if none).
    pub fn afi(&self) -> (r: u8)
        ensures
            r == self.afi,
    {
        self.afi
    }

    /// Currently active firmware slot: bits 0–2 of the AFI byte.
    pub fn active_slot(&self) -> (r: u8)
        ensures
            r == self.afi % 8,
            r <= 7,
    {
        let afi: u8 = self.afi;
        let r: u8 = afi & 0x07;
        assert(afi & 0x07 == afi % 8) by (bit_vector);
        r
    }

    /// Slot that will activate on next controller-level reset, if any:
    /// bits 4–6 of the AFI byte, `None` when they are zero.
    pub fn next_slot_to_activate(&self) -> (r: Option<u8>)
        ensures
            r == (if (self.afi / 16) % 8 == 0 {
                None::<u8>
            } else {
                Some(((self.afi / 16) % 8) as u8)
            }),
            r matches Some(s) ==> 1 <= s <= 7,
    {
        let afi: u8 = self.afi;
        let next: u8 = (afi >> 4) & 0x07;
        assert((afi >> 4) & 0x07 == (afi / 16) % 8) by (bit_vector);
        if next == 0 {
            None
        } else {
            Some(next)
        }
    }

    /// Firmware revision string stored in the given slot (`1..=7`),
    /// trimmed of its padding.
    ///
    /// Returns [`Error::NotAvailable`] for indices outside that range; an
    /// empty string if the slot is unused.
    pub fn slot_firmware(&self, slot: u8) -> (r: Result<&str>)
        ensures
            !(1 <= slot <= 7) <==> (r is Err && r->Err_0 is NotAvailable),
            1 <= slot <= 7 ==> {
                let field = self.frs@[slot - 1]@;
                &&& (r is Ok <==> valid_utf8(trim_padding(field)))
                &&& (r matches Ok(s) ==> s.spec_bytes() == trim_padding(field))
                &&& (r is Err ==> r->Err_0 == Error::Utf8(utf8_error_for(trim_padding(field))))
                &&& (all_ascii(field) ==> (r matches Ok(s) && s@ == ascii_text(
                    trim_padding(field),
                )))
            },
    {
        if !(slot >= 1 && slot <= 7) {
            return Err(Error::NotAvailable);
        }
        fixed_ascii_to_str(self.frs[(slot - 1) as usize].as_slice())
    }
}

/// One entry from the Error Information log page (LID 01h).
///
/// The error log is a ring buffer; entry `0` is the most recent and
/// `error_count == 0` indicates an unused slot. The fields are those of
/// libnvme's `nvme_error_log_page`.
#[derive(Clone, Copy)]
pub struct ErrorLogEntry {
    pub error_count: u64,
    pub sqid: u16,
    pub cmdid: u16,
    pub status_field: u16,
    pub parm_error_location: u16,
    pub lba: u64,
    pub nsid: u32,
    pub vs: u8,
    pub trtype: u8,
    pub csi: u8,
    pub opcode: u8,
}

/// The debugging text of an Error Information log entry: error count,
/// status field and opcode in zero-padded hexadecimal, namespace and LBA.
pub open spec fn error_log_entry_debug_text(e: ErrorLogEntry) -> Seq<char> {
    "ErrorLogEntry { error_count: "@ + decimal(e.error_count as nat) + ", status_field: 0x"@
        + hex_digits(e.status_field as nat, 4) + ", opcode: 0x"@ + hex_digits(e.opcode as nat, 2)
        + ", nsid: "@ + decimal(e.nsid as nat) + ", lba: "@ + decimal(e.lba as nat) + " }"@
}

/// The debugging text of an Error Information log entry shows the error
/// count, namespace and LBA in decimal, and after `0x` the status field as
/// four and the opcode as two lower-case hexadecimal digits (see
/// [`hex_digits_read_back`](crate::text::hex_digits_read_back)).
pub proof fn error_log_entry_debug_text_shows_each_field(e: ErrorLogEntry)
    ensures
        shows_after(
            error_log_entry_debug_text(e),
            "ErrorLogEntry { error_count: "@,
            decimal(e.error_count as nat),
        ),
        shows_after(
            error_log_entry_debug_text(e),
            ", status_field: 0x"@,
            hex_digits(e.status_field as nat, 4),
        ),
        shows_after(error_log_entry_debug_text(e), ", opcode: 0x"@, hex_digits(e.opcode as nat, 2)),
        shows_after(error_log_entry_debug_text(e), ", nsid: "@, decimal(e.nsid as nat)),
        shows_after(error_log_entry_debug_text(e), ", lba: "@, decimal(e.lba as nat)),
{
    reveal_strlit(", status_field: 0x");
    reveal_strlit(", opcode: 0x");
    reveal_strlit(", nsid: ");
    reveal_strlit(", lba: ");
    reveal_strlit(" }");
    let p0 = "ErrorLogEntry { error_count: "@;
    let p1 = decimal(e.error_count as nat);
    let p2 = ", status_field: 0x"@;
    let p3 = hex_digits(e.status_field as nat, 4);
    let p4 = ", opcode: 0x"@;
    let p5 = hex_digits(e.opcode as nat, 2);
    let p6 = ", nsid: "@;
    let p7 = decimal(e.nsid as nat);
    let p8 = ", lba: "@;
    let p9 = decimal(e.lba as nat);
    let p10 = " }"@;
    let l1 = p0;
    let l2 = l1 + p1;
    let l3 = l2 + p2;
    let l4 = l3 + p3;
    let l5 = l4 + p4;
    let l6 = l5 + p5;
    let l7 = l6 + p6;
    let l8 = l7 + p7;
    let l9 = l8 + p8;
    let l10 = l9 + p9;
    let l11 = l10 + p10;
    let r10 = p10;
    let r9 = p9 + r10;
    let r8 = p8 + r9;
    let r7 = p7 + r8;
    let r6 = p6 + r7;
    let r5 = p5 + r6;
    let r4 = p4 + r5;
    let r3 = p3 + r4;
    let r2 = p2 + r3;
    let r1 = p1 + r2;
    assert(error_log_entry_debug_text(e) == l11);
    lemma_concat_associative(l9, p9, r10);
    lemma_concat_associative(l8, p8, r9);
    lemma_concat_associative(l7, p7, r8);
    lemma_concat_associative(l6, p6, r7);
    lemma_concat_associative(l5, p5, r6);
    lemma_concat_associative(l4, p4, r5);
    lemma_concat_associative(l3, p3, r4);
    lemma_concat_associative(l2, p2, r3);
    lemma_concat_associative(l1, p1, r2);
    assert(Seq::<char>::empty() + p0 =~= p0);
    lemma_shows_after(Seq::<char>::empty(), p0, p1, r2);
    lemma_shows_after(l2, p2, p3, r4);
    lemma_shows_after(l4, p4, p5, r6);
    lemma_shows_after(l6, p6, p7, r8);
    lemma_shows_after(l8, p8, p9, r10);
}

impl ErrorLogEntry {
    /// Debugging text:
    /// `ErrorLogEntry { error_count: .., status_field: 0x...., opcode: 0x.., nsid: .., lba: .. }`,
    /// the status field as four and the opcode as two lower-case hex digits.
    pub fn to_debug_string(&self) -> (r: String)
        ensures
            r@ == error_log_entry_debug_text(*self),
    {
        let mut s = String::from_str("ErrorLogEntry { error_count: ");
        push_decimal(&mut s, self.error_count() as u128);
        s.append(", status_field: 0x");
        push_hex(&mut s, self.status_field() as u32, 4);
        s.append(", opcode: 0x");
        push_hex(&mut s, self.opcode() as u32, 2);
        s.append(", nsid: ");
        push_decimal(&mut s, self.nsid() as u128);
        s.append(", lba: ");
        push_decimal(&mut s, self.lba() as u128);
        s.append(" }");
        s
    }

    /// Monotonic counter; `0` indicates this slot has never recorded an error.
    pub fn error_count(&self) -> (r: u64)
        ensures
            r == self.error_count,
    {
        self.error_count
    }

    /// Submission Queue ID associated with the error.
    pub fn submission_queue_id(&self) -> (r: u16)
        ensures
            r == self.sqid,
    {
        self.sqid
    }

    /// Command ID of the failing command.
    pub fn command_id(&self) -> (r: u16)
        ensures
            r == self.cmdid,
    {
        self.cmdid
    }

    /// Status field of the completion entry (NVMe status code in low bits,
    /// status code type in upper bits).
    pub fn status_field(&self) -> (r: u16)
        ensures
            r == self.status_field,
    {
        self.status_field
    }

    /// Byte/bit offset within the command parameters that caused the error,
    /// if applicable.
    pub fn parameter_error_location(&self) -> (r: u16)
        ensures
            r == self.parm_error_location,
    {
        self.parm_error_location
    }

    /// First LBA of the failure, when relevant for the operation.
    pub fn lba(&self) -> (r: u64)
        ensures
            r == self.lba,
    {
        self.lba
    }

    /// Namespace ID for the failing command (`0` if not namespace-scoped).
    pub fn nsid(&self) -> (r: u32)
        ensures
            r == self.nsid,
    {
        self.nsid
    }

    /// Vendor-specific information byte.
    pub fn vendor_specific(&self) -> (r: u8)
        ensures
            r == self.vs,
    {
        self.vs
    }

    /// Transport type for Fabrics errors.
    pub fn transport_type(&self) -> (r: u8)
        ensures
            r == self.trtype,
    {
        self.trtype
    }

    /// Command Set Identifier for the failing command.
    pub fn csi(&self) -> (r: u8)
        ensures
            r == self.csi,
    {
        self.csi
    }

    /// Opcode of the failing command.
    pub fn opcode(&self) -> (r: u8)
        ensures
            r == self.opcode,
    {
        self.opcode
    }
}

} // verus!
