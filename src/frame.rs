//! Wire format of the sensor: command frames, reply frames and their checksums.
use crate::error::Error;
use vstd::prelude::*;

verus! {

/// First byte of every frame.
pub const HEAD: u8 = 0xaa;
/// Last byte of every frame.
pub const TAIL: u8 = 0xab;
/// Second byte of a command frame.
pub const CMD_ID: u8 = 0xb4;
/// Direction flag: read the current value.
pub const READ: u8 = 0x00;
/// Direction flag: write a new value.
pub const WRITE: u8 = 0x01;
/// Opcode that sets the report mode.
pub const REPORT_MODE_CMD: u8 = 0x02;
/// Report mode in which the sensor pushes measurements by itself.
pub const ACTIVE: u8 = 0x00;
/// Report mode in which the sensor answers queries only.
pub const PASSIVE: u8 = 0x01;
/// Opcode that asks for a measurement.
pub const QUERY_CMD: u8 = 0x04;
/// Opcode that sets the work period.
pub const WORK_PERIOD_CMD: u8 = 0x08;
/// Value of both ID bytes: the command goes to whichever sensor listens.
pub const SENSOR_ID: u8 = 0xff;
/// Longest work period, in minutes, that the sensor accepts.
pub const MAX_WORK_PERIOD: u8 = 30;
/// Length of a command frame.
pub const COMMAND_LEN: usize = 19;
/// Length of a reply frame.
pub const REPLY_LEN: usize = 10;

/// Sum of the bytes of `s`.
pub open spec fn byte_sum(s: Seq<u8>) -> nat
    decreases s.len(),
{
    if s.len() == 0 {
        0
    } else {
        byte_sum(s.drop_last()) + s.last() as nat
    }
}

/// The low eight bits of the sum of the bytes of `s`.
pub open spec fn checksum_of(s: Seq<u8>) -> u8 {
    (byte_sum(s) % 256) as u8
}

/// `n` zero bytes.
pub open spec fn zeros(n: nat) -> Seq<u8> {
    Seq::new(n, |i: int| 0u8)
}

/// What a command frame's checksum covers: the opcode, its parameters
/// padded with zeros to twelve bytes, and the two ID bytes.
pub open spec fn command_body(opcode: u8, params: Seq<u8>) -> Seq<u8> {
    seq![opcode] + params + zeros((12 - params.len()) as nat) + seq![SENSOR_ID, SENSOR_ID]
}

/// The complete command frame for `opcode` with `params`.
pub open spec fn command_frame(opcode: u8, params: Seq<u8>) -> Seq<u8> {
    let body = command_body(opcode, params);
    seq![HEAD, CMD_ID] + body + seq![checksum_of(body), TAIL]
}

/// The bytes of a reply frame that its checksum covers.
pub open spec fn reply_payload(reply: Seq<u8>) -> Seq<u8> {
    reply.subrange(2, 8)
}

/// Whether the checksum byte of a reply frame matches its payload.
pub open spec fn reply_checksum_ok(reply: Seq<u8>) -> bool {
    checksum_of(reply_payload(reply)) == reply[8]
}

/// The unsigned 16-bit value stored little-endian in `lo`, `hi`.
pub open spec fn le16(lo: u8, hi: u8) -> nat {
    lo as nat + 256 * hi as nat
}

proof fn lemma_byte_sum_append(a: Seq<u8>, b: Seq<u8>)
    ensures
        byte_sum(a + b) == byte_sum(a) + byte_sum(b),
    decreases b.len(),
{
    if b.len() > 0 {
        lemma_byte_sum_append(a, b.drop_last());
        assert((a + b).drop_last() =~= a + b.drop_last());
    } else {
        assert(a + b =~= a);
    }
}

proof fn lemma_byte_sum_one(x: u8)
    ensures
        byte_sum(seq![x]) == x as nat,
{
    reveal_with_fuel(byte_sum, 2);
    assert(seq![x].drop_last() =~= Seq::<u8>::empty());
}

proof fn lemma_byte_sum_zeros(n: nat)
    ensures
        byte_sum(zeros(n)) == 0,
    decreases n,
{
    if n > 0 {
        lemma_byte_sum_zeros((n - 1) as nat);
        assert(zeros(n).drop_last() =~= zeros((n - 1) as nat));
    }
}

/// The checksum of the work-period command for any period up to 30 minutes
/// is the sum of its opcode, the write flag, the period, ten zero bytes and
/// the two ID bytes, modulo 256; it stands at index 17, before the tail.
pub proof fn lemma_work_period_checksum(minutes: u8)
    requires
        minutes <= MAX_WORK_PERIOD,
    ensures
        command_frame(WORK_PERIOD_CMD, seq![WRITE, minutes]).len() == COMMAND_LEN,
        command_frame(WORK_PERIOD_CMD, seq![WRITE, minutes])[17] as int == (WORK_PERIOD_CMD as int
            + WRITE as int + minutes as int + byte_sum(zeros(10)) + SENSOR_ID as int
            + SENSOR_ID as int) % 256,
        command_frame(WORK_PERIOD_CMD, seq![WRITE, minutes])[18] == TAIL,
{
    let params = seq![WRITE, minutes];
    let body = command_body(WORK_PERIOD_CMD, params);
    let head = seq![WORK_PERIOD_CMD, WRITE, minutes];
    let ids = seq![SENSOR_ID, SENSOR_ID];
    assert(body =~= head + zeros(10) + ids);
    lemma_byte_sum_append(head + zeros(10), ids);
    lemma_byte_sum_append(head, zeros(10));
    lemma_byte_sum_zeros(10);
    reveal_with_fuel(byte_sum, 4);
    assert(head.drop_last() =~= seq![WORK_PERIOD_CMD, WRITE]);
    assert(head.drop_last().drop_last() =~= seq![WORK_PERIOD_CMD]);
    assert(head.drop_last().drop_last().drop_last() =~= Seq::<u8>::empty());
    assert(ids.drop_last() =~= seq![SENSOR_ID]);
    assert(ids.drop_last().drop_last() =~= Seq::<u8>::empty());
}

/// Returns the two header bytes that open every command frame.
pub fn cmd_begin() -> (r: Vec<u8>)
    ensures
        r@ == seq![HEAD, CMD_ID],
{
    let mut v: Vec<u8> = Vec::new();
    v.push(HEAD);
    v.push(CMD_ID);
    assert(v@ =~= seq![HEAD, CMD_ID]);
    v
}

/// Closes a command frame: appends the two ID bytes, the checksum of
/// everything after the header, and the tail byte.
pub fn finish_cmd(cmd: &mut Vec<u8>)
    requires
        old(cmd)@.len() >= 2,
        old(cmd)@.len() < 0x100_0000,
    ensures
        final(cmd)@ == old(cmd)@ + seq![SENSOR_ID, SENSOR_ID] + seq![
            checksum_of(old(cmd)@.subrange(2, old(cmd)@.len() as int) + seq![SENSOR_ID, SENSOR_ID]),
            TAIL,
        ],
{
    let ghost start = cmd@;
    cmd.push(SENSOR_ID);
    cmd.push(SENSOR_ID);
    let ghost covered = cmd@.subrange(2, cmd@.len() as int);
    assert(covered =~= start.subrange(2, start.len() as int) + seq![SENSOR_ID, SENSOR_ID]);
    let mut sum: u32 = 0;
    let mut i: usize = 2;
    while i < cmd.len()
        invariant
            2 <= i <= cmd@.len(),
            cmd@.len() == start.len() + 2,
            start.len() < 0x100_0000,
            cmd@ == start + seq![SENSOR_ID, SENSOR_ID],
            covered == cmd@.subrange(2, cmd@.len() as int),
            sum as nat == byte_sum(cmd@.subrange(2, i as int)),
            sum <= 255 * i,
        decreases cmd@.len() - i,
    {
        proof {
            let x = cmd@[i as int];
            assert(cmd@.subrange(2, i + 1) =~= cmd@.subrange(2, i as int) + seq![x]);
            lemma_byte_sum_append(cmd@.subrange(2, i as int), seq![x]);
            lemma_byte_sum_one(x);
        }
        assert(sum + 255 <= 255 * (i + 1)) by (nonlinear_arith)
            requires sum <= 255 * i;
        sum = sum + cmd[i] as u32;
        i = i + 1;
    }
    let check: u8 = (sum % 256) as u8;
    cmd.push(check);
    cmd.push(TAIL);
    assert(cmd@ =~= start + seq![SENSOR_ID, SENSOR_ID] + seq![checksum_of(covered), TAIL]);
}

/// One measurement: when it was decoded and the two concentrations, each in
/// tenths of a microgram per cubic meter, as the sensor reports them.
#[derive(Debug, Clone, Copy, PartialEq, Eq)]
pub struct Reading {
    /// Seconds since the Unix epoch at which the reply was decoded.
    pub timestamp: u64,
    /// PM2.5 concentration, in tenths of a microgram per cubic meter.
    pub pm25: u16,
    /// PM10 concentration, in tenths of a microgram per cubic meter.
    pub pm10: u16,
}

/// The measurement that a query's reply carries, decoded at `timestamp`.
pub open spec fn reading_of(reply: Seq<u8>, timestamp: u64) -> Reading {
    Reading {
        timestamp,
        pm25: le16(reply[2], reply[3]) as u16,
        pm10: le16(reply[4], reply[5]) as u16,
    }
}

/// Appends `n` zero bytes to `cmd`.
fn push_zeros(cmd: &mut Vec<u8>, n: usize)
    ensures
        final(cmd)@ == old(cmd)@ + zeros(n as nat),
{
    let ghost start = cmd@;
    let mut k: usize = 0;
    while k < n
        invariant
            k <= n,
            cmd@ == start + zeros(k as nat),
        decreases n - k,
    {
        cmd.push(0u8);
        k = k + 1;
        assert(cmd@ =~= start + zeros(k as nat));
    }
}

/// Builds the complete command frame for `opcode` with `params`.
fn build_command(opcode: u8, params: &Vec<u8>) -> (r: Vec<u8>)
    requires
        params@.len() <= 12,
    ensures
        r@ == command_frame(opcode, params@),
        r@.len() == COMMAND_LEN,
{
    let mut cmd = cmd_begin();
    cmd.push(opcode);
    let mut k: usize = 0;
    while k < params.len()
        invariant
            k <= params@.len() <= 12,
            cmd@ == seq![HEAD, CMD_ID, opcode] + params@.subrange(0, k as int),
        decreases params@.len() - k,
    {
        cmd.push(params[k]);
        k = k + 1;
        assert(cmd@ =~= seq![HEAD, CMD_ID, opcode] + params@.subrange(0, k as int));
    }
    push_zeros(&mut cmd, 12 - params.len());
    let ghost start = cmd@;
    finish_cmd(&mut cmd);
    proof {
        let body = command_body(opcode, params@);
        assert(params@.subrange(0, params@.len() as int) =~= params@);
        assert(start.subrange(2, start.len() as int) + seq![SENSOR_ID, SENSOR_ID] =~= body);
        assert(cmd@ =~= command_frame(opcode, params@));
    }
    cmd
}

/// The command that switches the sensor to passive reporting: it then sends
/// a measurement only when asked.
pub fn report_mode_command() -> (r: Vec<u8>)
    ensures
        r@ == command_frame(REPORT_MODE_CMD, seq![WRITE, PASSIVE]),
        r@.len() == COMMAND_LEN,
{
    let params: Vec<u8> = vec![WRITE, PASSIVE];
    assert(params@ =~= seq![WRITE, PASSIVE]);
    build_command(REPORT_MODE_CMD, &params)
}

/// The command that asks the sensor for a measurement. Between the header and
/// the checksum it holds the opcode, twelve zero bytes and the two ID bytes.
pub fn query_command() -> (r: Vec<u8>)
    ensures
        r@ == command_frame(QUERY_CMD, seq![]),
        r@.len() == COMMAND_LEN,
        r@.subrange(2, 17) == seq![QUERY_CMD] + zeros(12) + seq![SENSOR_ID, SENSOR_ID],
{
    let params: Vec<u8> = Vec::new();
    let r = build_command(QUERY_CMD, &params);
    assert(r@.subrange(2, 17) =~= seq![QUERY_CMD] + zeros(12) + seq![SENSOR_ID, SENSOR_ID]);
    r
}

/// The command that sets the sensor's work period to `minutes` (0 means
/// continuous operation). Fails with `TooLongWorkTime` if `minutes` is over
/// 30, and then yields no bytes to send.
pub fn work_period_command(minutes: u8) -> (r: Result<Vec<u8>, Error>)
    ensures
        r matches Ok(v) ==> v@ == command_frame(WORK_PERIOD_CMD, seq![WRITE, minutes]),
        r matches Ok(v) ==> v@.len() == COMMAND_LEN,
        r is Ok <==> minutes <= MAX_WORK_PERIOD,
        minutes > MAX_WORK_PERIOD ==> r == Err::<Vec<u8>, Error>(Error::TooLongWorkTime),
{
    if minutes > MAX_WORK_PERIOD {
        return Err(Error::TooLongWorkTime);
    }
    let params: Vec<u8> = vec![WRITE, minutes];
    assert(params@ =~= seq![WRITE, minutes]);
    Ok(build_command(WORK_PERIOD_CMD, &params))
}

/// Checks the checksum of a reply frame: returns the frame if the checksum
/// byte equals the low eight bits of the sum of the payload bytes 2 to 7,
/// and `BadChecksum` otherwise.
pub fn check_reply(buf: &[u8; 10]) -> (r: Result<[u8; 10], Error>)
    ensures
        reply_checksum_ok(buf@) ==> r == Ok::<[u8; 10], Error>(*buf),
        !reply_checksum_ok(buf@) ==> r == Err::<[u8; 10], Error>(Error::BadChecksum),
{
    let mut sum: u32 = 0;
    let mut i: usize = 2;
    while i < 8
        invariant
            2 <= i <= 8,
            sum as nat == byte_sum(buf@.subrange(2, i as int)),
            sum <= 255 * i,
        decreases 8 - i,
    {
        proof {
            let x = buf@[i as int];
            assert(buf@.subrange(2, i + 1) =~= buf@.subrange(2, i as int) + seq![x]);
            lemma_byte_sum_append(buf@.subrange(2, i as int), seq![x]);
            lemma_byte_sum_one(x);
        }
        sum = sum + buf[i] as u32;
        i = i + 1;
    }
    let check: u8 = (sum & 255) as u8;
    assert(sum & 255 == sum % 256) by (bit_vector);
    if check != buf[8] {
        return Err(Error::BadChecksum);
    }
    Ok(*buf)
}

/// Decodes the measurement that a query's reply carries: bytes 2 and 3 hold
/// PM2.5 and bytes 4 and 5 hold PM10, each little-endian.
pub fn decode_reading(raw: &[u8; 10], timestamp: u64) -> (r: Reading)
    ensures
        r == reading_of(raw@, timestamp),
        r.pm25 as nat == le16(raw@[2], raw@[3]),
        r.pm10 as nat == le16(raw@[4], raw@[5]),
        r.timestamp == timestamp,
{
    let pm25: u16 = raw[2] as u16 + 256 * (raw[3] as u16);
    let pm10: u16 = raw[4] as u16 + 256 * (raw[5] as u16);
    Reading { timestamp, pm25, pm10 }
}

} // verus!
