//! The SMC fan-control keys and the checks around an SMC key write.
use vstd::prelude::*;

verus! {

/// Errors from a fan-control write.
#[derive(Clone, Copy, Debug, PartialEq, Eq, Structural)]
pub enum FanCtlError {
    /// SMC writes require elevated privileges.
    NotPrivileged,
    /// Could not open the `AppleSMC` service.
    Open,
    /// The SMC returned an error for the operation.
    Smc(i32),
}

/// The kernel's success code.
pub const KERN_SUCCESS: i32 = 0;

/// `kIOReturnNotPrivileged` (`0xe00002c1`) as the signed code the kernel returns.
pub const RETURN_NOT_PRIVILEGED: i32 = -536870207i32;

/// The big-endian value of a four-character key.
pub open spec fn key_value(a: u8, b: u8, c: u8, d: u8) -> int {
    a * 0x1000000 + b * 0x10000 + c * 0x100 + d
}

/// The SMC key `F<idx><suffix>` of fan `idx`, e.g. `F0Md`.
pub fn fan_key(idx: u8, suffix: [u8; 2]) -> (r: u32)
    requires
        idx <= 207,
    ensures
        r == key_value(70, (48 + idx) as u8, suffix@[0], suffix@[1]),
{
    let c = suffix[0] as u32;
    let d = suffix[1] as u32;
    0x4600_0000u32 + ((48 + idx) as u32) * 0x10000 + c * 0x100 + d
}

/// The `FS! ` key: the bit mask of fans in manual mode.
pub fn fs_key() -> (r: u32)
    ensures
        r == key_value(70, 83, 33, 32),
{
    0x4653_2120u32
}

/// Whether bit `j` of `m` is set.
pub open spec fn mask_bit(m: u16, j: u16) -> bool {
    (m >> j) & 1 == 1
}

/// `mask` with fan `idx`'s bit set (`manual`) or cleared.
pub open spec fn forced_mask(mask: u16, idx: u8, manual: bool) -> u16 {
    if manual {
        mask | (1u16 << (idx as u16))
    } else {
        mask & !(1u16 << (idx as u16))
    }
}

/// The manual-mode mask with fan `idx`'s bit set (`manual`) or cleared, and
/// every other fan's bit kept.
pub fn updated_force_mask(mask: u16, idx: u8, manual: bool) -> (r: u16)
    requires
        idx < 16,
    ensures
        r == forced_mask(mask, idx, manual),
        mask_bit(r, idx as u16) == manual,
        forall|j: u16| j < 16 && j != idx ==> mask_bit(r, j) == mask_bit(mask, j),
{
    let i: u16 = idx as u16;
    if manual {
        let r = mask | (1u16 << i);
        assert(mask_bit(r, i)) by (bit_vector)
            requires
                r == mask | (1u16 << i),
                i < 16,
        ;
        assert(forall|j: u16| j < 16 && j != i ==> mask_bit(r, j) == mask_bit(mask, j))
            by (bit_vector)
            requires
                r == mask | (1u16 << i),
                i < 16,
        ;
        r
    } else {
        let r = mask & !(1u16 << i);
        assert(!mask_bit(r, i)) by (bit_vector)
            requires
                r == mask & !(1u16 << i),
                i < 16,
        ;
        assert(forall|j: u16| j < 16 && j != i ==> mask_bit(r, j) == mask_bit(mask, j))
            by (bit_vector)
            requires
                r == mask & !(1u16 << i),
                i < 16,
        ;
        r
    }
}

/// What a kernel return code of an SMC call means.
pub fn kern_result(rc: i32) -> (r: Result<(), FanCtlError>)
    ensures
        r == (if rc == KERN_SUCCESS {
            Ok(())
        } else if rc == RETURN_NOT_PRIVILEGED {
            Err(FanCtlError::NotPrivileged)
        } else {
            Err(FanCtlError::Smc(rc))
        }),
{
    if rc == KERN_SUCCESS {
        Ok(())
    } else if rc == RETURN_NOT_PRIVILEGED {
        Err(FanCtlError::NotPrivileged)
    } else {
        Err(FanCtlError::Smc(rc))
    }
}

/// The declared size of a key that may be read: between 1 and 32 bytes.
pub fn checked_read_size(declared: u32) -> (r: Result<usize, FanCtlError>)
    ensures
        r == (if declared == 0 || declared > 32 {
            Err(FanCtlError::Smc(-1i32))
        } else {
            Ok(declared as usize)
        }),
{
    if declared == 0 || declared > 32 {
        Err(FanCtlError::Smc(-1))
    } else {
        Ok(declared as usize)
    }
}

/// The declared size of a key that `data_len` bytes may be written to: between
/// 1 and 32 bytes, and no smaller than the data.
pub fn checked_write_size(declared: u32, data_len: usize) -> (r: Result<usize, FanCtlError>)
    ensures
        r == (if declared == 0 || declared > 32 || data_len > declared {
            Err(FanCtlError::Smc(-1i32))
        } else {
            Ok(declared as usize)
        }),
{
    if declared == 0 || declared > 32 || data_len > declared as usize {
        Err(FanCtlError::Smc(-1))
    } else {
        Ok(declared as usize)
    }
}

/// How many bytes of a key of `size` bytes land in a buffer of `out_len`.
pub fn copied_len(size: usize, out_len: usize) -> (r: usize)
    ensures
        r == (if size < out_len {
            size
        } else {
            out_len
        }),
{
    if size < out_len {
        size
    } else {
        out_len
    }
}

/// One SMC key write: the key and the bytes written to it.
#[derive(Clone, Debug, PartialEq, Eq)]
pub struct SmcWrite {
    pub key: u32,
    pub bytes: Vec<u8>,
}

/// A write as its key and bytes.
pub open spec fn write_view(w: SmcWrite) -> (u32, Seq<u8>) {
    (w.key, w.bytes@)
}

/// The writes `ws` as keys and bytes, in order.
pub open spec fn writes_view(ws: Seq<SmcWrite>) -> Seq<(u32, Seq<u8>)> {
    ws.map_values(|w: SmcWrite| write_view(w))
}

/// The 16-bit value of two big-endian bytes.
pub open spec fn be_u16(hi: u8, lo: u8) -> u16 {
    (hi * 256 + lo) as u16
}

/// The two big-endian bytes of `m`.
pub open spec fn be_bytes(m: u16) -> Seq<u8> {
    seq![(m / 256) as u8, (m % 256) as u8]
}

/// The write of the manual-mode mask that puts fan `idx` in manual mode or
/// hands it back: the mask as read from `FS! `, with that fan's bit updated;
/// nothing when the mask could not be read.
pub open spec fn force_bit_write_spec(idx: u8, manual: bool, read: Option<[u8; 2]>) -> Seq<
    (u32, Seq<u8>),
> {
    match read {
        Some(b) => seq![
            (
                key_value(70, 83, 33, 32) as u32,
                be_bytes(forced_mask(be_u16(b@[0], b@[1]), idx, manual)),
            ),
        ],
        None => Seq::empty(),
    }
}

/// The key `F<idx><a><b>` of fan `idx`.
pub open spec fn fan_key_spec(idx: u8, a: u8, b: u8) -> u32 {
    key_value(70, (48 + idx) as u8, a, b) as u32
}

/// The writes that hand fan `idx` back to automatic control, in order: its
/// bit cleared in the manual-mode mask (when the mask could be read), then
/// its mode key `F<idx>Md` set to 0. The last write's result is the result.
pub open spec fn auto_writes_spec(idx: u8, read: Option<[u8; 2]>) -> Seq<(u32, Seq<u8>)> {
    force_bit_write_spec(idx, false, read).push((fan_key_spec(idx, 77, 100), seq![0u8]))
}

/// The writes that force fan `idx` to the target speed whose bytes are
/// `target`, in order: its bit set in the manual-mode mask (when the mask
/// could be read), its mode key `F<idx>Md` set to 1, then its target key
/// `F<idx>Tg`. The last write's result is the result.
pub open spec fn forced_writes_spec(idx: u8, read: Option<[u8; 2]>, target: [u8; 4]) -> Seq<
    (u32, Seq<u8>),
> {
    force_bit_write_spec(idx, true, read).push((fan_key_spec(idx, 77, 100), seq![1u8])).push(
        (fan_key_spec(idx, 84, 103), target@),
    )
}

fn push_force_bit_write(out: &mut Vec<SmcWrite>, idx: u8, manual: bool, read: Option<[u8; 2]>)
    requires
        idx < 16,
        old(out)@.len() == 0,
    ensures
        writes_view(final(out)@) == force_bit_write_spec(idx, manual, read),
{
    if let Some(b) = read {
        let mask: u16 = (b[0] as u16) * 256 + b[1] as u16;
        let m = updated_force_mask(mask, idx, manual);
        let mut bytes: Vec<u8> = Vec::new();
        bytes.push((m / 256) as u8);
        bytes.push((m % 256) as u8);
        assert(bytes@ =~= be_bytes(m));
        out.push(SmcWrite { key: fs_key(), bytes });
        assert(writes_view(out@) =~= force_bit_write_spec(idx, manual, read));
    } else {
        assert(writes_view(out@) =~= force_bit_write_spec(idx, manual, read));
    }
}

/// The writes that hand fan `idx` back to automatic control; `read` is the
/// manual-mode mask as read from `FS! `, if it could be read.
pub fn auto_writes(idx: u8, read: Option<[u8; 2]>) -> (r: Vec<SmcWrite>)
    requires
        idx < 16,
    ensures
        writes_view(r@) == auto_writes_spec(idx, read),
{
    let mut out: Vec<SmcWrite> = Vec::new();
    push_force_bit_write(&mut out, idx, false, read);
    let ghost before = out@;
    let mut bytes: Vec<u8> = Vec::new();
    bytes.push(0u8);
    assert(bytes@ =~= seq![0u8]);
    out.push(SmcWrite { key: fan_key(idx, [77u8, 100u8]), bytes });
    assert(writes_view(out@) =~= writes_view(before).push(write_view(out@.last())));
    out
}

/// The writes that force fan `idx` to the target speed whose bytes are
/// `target`; `read` is the manual-mode mask as read from `FS! `, if it could
/// be read.
pub fn forced_writes(idx: u8, read: Option<[u8; 2]>, target: [u8; 4]) -> (r: Vec<SmcWrite>)
    requires
        idx < 16,
    ensures
        writes_view(r@) == forced_writes_spec(idx, read, target),
{
    let mut out: Vec<SmcWrite> = Vec::new();
    push_force_bit_write(&mut out, idx, true, read);
    let ghost before = out@;
    let mut mode: Vec<u8> = Vec::new();
    mode.push(1u8);
    assert(mode@ =~= seq![1u8]);
    out.push(SmcWrite { key: fan_key(idx, [77u8, 100u8]), bytes: mode });
    let ghost middle = out@;
    assert(writes_view(middle) =~= writes_view(before).push(write_view(middle.last())));
    let mut tg: Vec<u8> = Vec::new();
    tg.push(target[0]);
    tg.push(target[1]);
    tg.push(target[2]);
    tg.push(target[3]);
    assert(tg@ =~= target@);
    out.push(SmcWrite { key: fan_key(idx, [84u8, 103u8]), bytes: tg });
    assert(writes_view(out@) =~= writes_view(middle).push(write_view(out@.last())));
    out
}

} // verus!
