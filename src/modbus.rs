use vstd::prelude::*;

verus! {

/// A Modbus frame split into its header fields and payload.
pub struct ModbusFrame {
    pub device_id: u8,
    pub function_code: u8,
    pub data: Vec<u8>,
}

/// Shortest frame accepted: address, function code and a two-byte checksum.
pub const MIN_FRAME_LEN: usize = 4;

/// The payload of a frame: everything between the two header bytes and the
/// two trailing checksum bytes.
pub open spec fn payload_of(raw: Seq<u8>) -> Seq<u8> {
    raw.subrange(2, raw.len() - 2)
}

/// Splits a raw frame into device id, function code and payload.
pub fn parse_frame(raw: &[u8]) -> (r: Result<ModbusFrame, &'static str>)
    ensures
        raw@.len() < MIN_FRAME_LEN <==> r is Err,
        r is Err ==> r->Err_0@ == "Frame too short"@,
        r matches Ok(f) ==> {
            &&& f.device_id == raw@[0]
            &&& f.function_code == raw@[1]
            &&& f.data@ == payload_of(raw@)
        },
{
    if raw.len() < MIN_FRAME_LEN {
        return Err("Frame too short");
    }
    let end: usize = raw.len() - 2;
    let mut data: Vec<u8> = Vec::new();
    let mut i: usize = 2;
    while i < end
        invariant
            2 <= i <= end,
            end == raw@.len() - 2,
            data@ == raw@.subrange(2, i as int),
        decreases end - i,
    {
        data.push(raw[i]);
        i = i + 1;
    }
    Ok(ModbusFrame { device_id: raw[0], function_code: raw[1], data })
}

} // verus!
