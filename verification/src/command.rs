//! The decisions made around a libnvme call: checks on the arguments before
//! a command is issued, the arguments built for it, and how its return
//! value is read back.

use vstd::prelude::*;
use vstd::string::StringSliceAdditionalSpecFns;
use crate::error::{
    invalid_input, invalid_input_error, last_os_error, os_error_for_code, os_error_from_code, Error,
    Result,
};

verus! {

/// Number of controller identifiers that an NVMe Controller List holds.
pub const CTRL_LIST_CAPACITY: usize = 2047;

/// Read the file descriptor that libnvme returned for a controller.
///
/// libnvme opens the device lazily; a negative value means the open failed
/// with `errno` set, which becomes [`Error::Os`].
pub fn check_fd(fd: i32) -> (r: Result<i32>)
    ensures
        fd >= 0 <==> r == Ok::<i32, Error>(fd),
        fd < 0 <==> (r is Err && r->Err_0 is Os),
{
    if fd < 0 {
        Err(Error::Os(last_os_error()))
    } else {
        Ok(fd)
    }
}

/// Read whether libnvme returned a handle: a NULL handle (`present` false)
/// means the call failed with `errno` set, which becomes [`Error::Os`].
pub fn check_handle(present: bool) -> (r: Result<()>)
    ensures
        present <==> r is Ok,
        !present ==> r->Err_0 is Os,
{
    if present {
        Ok(())
    } else {
        Err(Error::Os(last_os_error()))
    }
}

/// Map libnvme's `int` return convention to a result: `0` is success, a
/// negative value is `-errno` and becomes [`Error::Os`], a positive value is
/// the NVMe status the device completed the command with and becomes
/// [`Error::Nvme`]. `i32::MIN`, which has no negation, is passed on as the
/// code it is, as the wrapping negation gives it.
pub fn check_ret(ret: i32) -> (r: Result<()>)
    ensures
        ret == 0 ==> r is Ok,
        ret < 0 && ret != i32::MIN ==> r == Err::<(), Error>(
            Error::Os(os_error_for_code(-ret as i32)),
        ),
        ret == i32::MIN ==> r == Err::<(), Error>(Error::Os(os_error_for_code(i32::MIN))),
        ret > 0 ==> r == Err::<(), Error>(Error::Nvme(ret as u32)),
{
    if ret == 0 {
        Ok(())
    } else if ret > 0 {
        Err(Error::Nvme(ret as u32))
    } else if ret != i32::MIN {
        Err(Error::Os(os_error_from_code(-ret)))
    } else {
        Err(Error::Os(os_error_from_code(ret)))
    }
}

/// An NVMe Controller List as the Namespace Attachment command carries it:
/// the number of identifiers, then the identifiers, zero-filled to the
/// list's fixed capacity.
#[derive(Debug)]
pub struct ControllerList {
    pub num: u16,
    pub identifier: Vec<u16>,
}

/// `list` holds exactly `ids`, followed by zeros up to the list capacity.
pub open spec fn is_controller_list_of(list: ControllerList, ids: Seq<u16>) -> bool {
    &&& list.num == ids.len()
    &&& ids.len() <= CTRL_LIST_CAPACITY
    &&& list.identifier@.len() == CTRL_LIST_CAPACITY
    &&& forall|i: int|
        0 <= i < CTRL_LIST_CAPACITY ==> #[trigger] list.identifier@[i] == (if i < ids.len() {
            ids[i]
        } else {
            0u16
        })
}

/// A Controller List of some identifiers counts every one of them, whatever
/// their values (a controller ID of 0 included), and lists them in the order
/// given before its zero fill.
pub proof fn controller_list_counts_every_identifier(list: ControllerList, ids: Seq<u16>)
    requires
        is_controller_list_of(list, ids),
    ensures
        list.num == ids.len(),
        ids.len() <= CTRL_LIST_CAPACITY,
        list.identifier@.subrange(0, ids.len() as int) == ids,
        forall|i: int|
            ids.len() <= i < CTRL_LIST_CAPACITY ==> #[trigger] list.identifier@[i] == 0,
{
    assert(list.num as int == ids.len());
    assert forall|i: int| 0 <= i < ids.len() implies #[trigger] list.identifier@.subrange(
        0,
        ids.len() as int,
    )[i] == ids[i] by {
        assert(list.identifier@[i] == ids[i]);
    }
    assert(list.identifier@.subrange(0, ids.len() as int) =~= ids);
}

/// Build the Controller List for attaching a namespace to, or detaching it
/// from, the given controllers (CNTLIDs).
///
/// A list longer than the 2047 entries the structure holds gives
/// [`Error::NotAvailable`]. An empty list is accepted (a no-op per spec).
pub fn controller_list(controller_ids: &[u16]) -> (r: Result<ControllerList>)
    ensures
        controller_ids@.len() <= CTRL_LIST_CAPACITY <==> r is Ok,
        controller_ids@.len() > CTRL_LIST_CAPACITY ==> r->Err_0 is NotAvailable,
        r matches Ok(list) ==> is_controller_list_of(list, controller_ids@),
        r matches Ok(list) ==> list.num == controller_ids@.len(),
        r matches Ok(list) ==> list.identifier@.subrange(0, controller_ids@.len() as int)
            == controller_ids@,
{
    let n: usize = controller_ids.len();
    if n > CTRL_LIST_CAPACITY {
        return Err(Error::NotAvailable);
    }
    let mut identifier: Vec<u16> = Vec::new();
    let mut i: usize = 0;
    while i < CTRL_LIST_CAPACITY
        invariant
            n == controller_ids@.len(),
            n <= CTRL_LIST_CAPACITY,
            i <= CTRL_LIST_CAPACITY,
            identifier@.len() == i,
            forall|j: int|
                0 <= j < i ==> #[trigger] identifier@[j] == (if j < n {
                    controller_ids@[j]
                } else {
                    0u16
                }),
        decreases CTRL_LIST_CAPACITY - i,
    {
        if i < n {
            identifier.push(controller_ids[i]);
        } else {
            identifier.push(0);
        }
        i = i + 1;
    }
    Ok(ControllerList { num: n as u16, identifier })
}

/// Check a string that is handed to libnvme as a C string: it must not hold
/// a NUL byte. A NUL byte gives an [`Error::Os`] carrying an
/// `InvalidInput` error with the message `err_msg`.
pub fn check_c_string(s: &str, err_msg: &'static str) -> (r: Result<()>)
    ensures
        r is Ok <==> !s.spec_bytes().contains(0u8),
        r is Err ==> r == Err::<(), Error>(
            Error::Os(invalid_input_error(err_msg@)),
        ),
{
    let bytes = s.as_bytes();
    let mut i: usize = 0;
    while i < bytes.len()
        invariant
            bytes@ == s.spec_bytes(),
            i <= bytes@.len(),
            forall|j: int| 0 <= j < i ==> bytes@[j] != 0u8,
        decreases bytes@.len() - i,
    {
        if bytes[i] == 0 {
            return Err(Error::Os(invalid_input(err_msg)));
        }
        i = i + 1;
    }
    Ok(())
}

/// The message of the error for a host NQN holding a NUL byte.
pub open spec fn hostnqn_nul_message() -> Seq<char> {
    seq![
        'i', 'n', 't', 'e', 'r', 'i', 'o', 'r', ' ', 'N', 'U', 'L', ' ', 'b', 'y', 't', 'e', ' ',
        'i', 'n', ' ', 'h', 'o', 's', 't', 'n', 'q', 'n',
    ]
}

/// The message of the error for a host ID holding a NUL byte.
pub open spec fn hostid_nul_message() -> Seq<char> {
    seq![
        'i', 'n', 't', 'e', 'r', 'i', 'o', 'r', ' ', 'N', 'U', 'L', ' ', 'b', 'y', 't', 'e', ' ',
        'i', 'n', ' ', 'h', 'o', 's', 't', 'i', 'd',
    ]
}

/// Check the host NQN and optional host ID given to a host lookup: each
/// must be free of NUL bytes, the NQN being checked first.
pub fn check_host_names(hostnqn: &str, hostid: Option<&str>) -> (r: Result<()>)
    ensures
        r is Ok <==> (!hostnqn.spec_bytes().contains(0u8) && (hostid matches Some(h)
            ==> !h.spec_bytes().contains(0u8))),
        hostnqn.spec_bytes().contains(0u8) ==> r == Err::<(), Error>(
            Error::Os(invalid_input_error(hostnqn_nul_message())),
        ),
        !hostnqn.spec_bytes().contains(0u8) && (hostid matches Some(h) && h.spec_bytes().contains(
            0u8,
        )) ==> r == Err::<(), Error>(
            Error::Os(invalid_input_error(hostid_nul_message())),
        ),
{
    let nqn_msg = "interior NUL byte in hostnqn";
    let id_msg = "interior NUL byte in hostid";
    proof {
        reveal_strlit("interior NUL byte in hostnqn");
        reveal_strlit("interior NUL byte in hostid");
        assert(nqn_msg@ =~= hostnqn_nul_message());
        assert(id_msg@ =~= hostid_nul_message());
    }
    check_c_string(hostnqn, nqn_msg)?;
    match hostid {
        Some(h) => check_c_string(h, id_msg),
        None => Ok(()),
    }
}

/// Length that the Host Identifier feature requires of its buffer: 16 bytes
/// for the extended 128-bit identifier, 8 bytes otherwise.
pub open spec fn host_id_len(exhid: bool) -> nat {
    if exhid {
        16
    } else {
        8
    }
}

/// The message of the error for a Host Identifier buffer of the wrong length.
pub open spec fn host_id_len_message() -> Seq<char> {
    seq![
        'h', 'o', 's', 't', 'i', 'd', ' ', 'b', 'u', 'f', 'f', 'e', 'r', ' ', 'm', 'u', 's', 't',
        ' ', 'b', 'e', ' ', '8', ' ', 'b', 'y', 't', 'e', 's', ' ', '(', 'e', 'x', 'h', 'i', 'd',
        '=', 'f', 'a', 'l', 's', 'e', ')', ' ', 'o', 'r', ' ', '1', '6', ' ', 'b', 'y', 't', 'e',
        's', ' ', '(', 'e', 'x', 'h', 'i', 'd', '=', 't', 'r', 'u', 'e', ')',
    ]
}

/// Check the buffer length given to Get/Set Features — Host Identifier.
/// A wrong length gives an [`Error::Os`] carrying an `InvalidInput` error.
pub fn check_host_id_len(exhid: bool, len: usize) -> (r: Result<()>)
    ensures
        r is Ok <==> len == host_id_len(exhid),
        r is Err ==> r->Err_0 is Os,
        r matches Err(Error::Os(e)) ==> e == invalid_input_error(host_id_len_message()),
{
    let expected: usize = if exhid {
        16
    } else {
        8
    };
    if len != expected {
        let msg = "hostid buffer must be 8 bytes (exhid=false) or 16 bytes (exhid=true)";
        proof {
            reveal_strlit("hostid buffer must be 8 bytes (exhid=false) or 16 bytes (exhid=true)");
            assert(msg@ =~= host_id_len_message());
        }
        return Err(Error::Os(invalid_input(msg)));
    }
    Ok(())
}

/// Total namespace size in bytes, `lba_count * lba_size`, saturating at
/// `u64::MAX`.
pub fn size_bytes(lba_count: u64, lba_size: u32) -> (r: u64)
    ensures
        r == (if lba_count * lba_size <= u64::MAX {
            (lba_count * lba_size) as u64
        } else {
            u64::MAX
        }),
{
    match lba_count.checked_mul(lba_size as u64) {
        Some(v) => v,
        None => u64::MAX,
    }
}

/// The transfer length to request for up to `max_entries` Error
/// Information log entries of `entry_size` bytes each.
///
/// `None` when no entry is asked for (nothing is fetched). Otherwise the
/// byte count `entry_size * max_entries`, given to libnvme as a 32-bit
/// length (the low 32 bits are kept), or [`Error::NotAvailable`] when the
/// byte count does not fit in `usize`.
pub fn error_log_len(entry_size: usize, max_entries: u32) -> (r: Option<Result<u32>>)
    ensures
        max_entries == 0 <==> r is None,
        max_entries != 0 && entry_size * max_entries > usize::MAX ==> (r matches Some(Err(e))
            && e is NotAvailable),
        max_entries != 0 && entry_size * max_entries <= usize::MAX ==> r == Some(
            Ok::<u32, Error>((entry_size * max_entries) as u32),
        ),
{
    if max_entries == 0 {
        return None;
    }
    match entry_size.checked_mul(max_entries as usize) {
        None => Some(Err(Error::NotAvailable)),
        Some(total) => {
            #[verifier::truncate]
            let len: u32 = total as u32;
            Some(Ok(len))
        },
    }
}

/// A 128-bit namespace identifier (NGUID), all-zero when libnvme reports
/// none (`raw` is `None` for a NULL pointer).
pub fn nguid_or_zero(raw: Option<&[u8; 16]>) -> (r: [u8; 16])
    ensures
        raw matches Some(a) ==> r@ == a@,
        raw is None ==> r@ == Seq::new(16, |i: int| 0u8),
{
    match raw {
        Some(a) => *a,
        None => {
            let z = [0u8; 16];
            assert(z@ =~= Seq::new(16, |i: int| 0u8));
            z
        },
    }
}

/// A 64-bit IEEE Extended Unique Identifier (EUI-64), all-zero when libnvme
/// reports none (`raw` is `None` for a NULL pointer).
pub fn eui64_or_zero(raw: Option<&[u8; 8]>) -> (r: [u8; 8])
    ensures
        raw matches Some(a) ==> r@ == a@,
        raw is None ==> r@ == Seq::new(8, |i: int| 0u8),
{
    match raw {
        Some(a) => *a,
        None => {
            let z = [0u8; 8];
            assert(z@ =~= Seq::new(8, |i: int| 0u8));
            z
        },
    }
}

} // verus!
