//! APDU commands and answers, as the `ledger-apdu` crate frames them.

use vstd::prelude::*;

verus! {

/// A command for the device: class, instruction, two parameters and a
/// payload.
#[derive(Debug)]
pub struct APDUCommand {
    pub cla: u8,
    pub ins: u8,
    pub p1: u8,
    pub p2: u8,
    pub data: Vec<u8>,
}

/// An answer of the device: the bytes of a reply as they came, of any
/// length. Where there are two bytes at least, the last two are the return
/// code and what stands before them is the payload.
#[derive(Debug)]
pub struct APDUAnswer {
    raw: Vec<u8>,
}

impl View for APDUAnswer {
    type V = Seq<u8>;

    closed spec fn view(&self) -> Seq<u8> {
        self.raw@
    }
}

/// The wire form of a command: the four header bytes, one byte for the
/// payload's length, then the payload. The length byte holds the length
/// modulo 256.
pub open spec fn framed_command(cla: u8, ins: u8, p1: u8, p2: u8, data: Seq<u8>) -> Seq<u8> {
    seq![cla, ins, p1, p2, (data.len() % 256) as u8] + data
}

/// The payload of a raw answer: all but its last two bytes.
pub open spec fn answer_data(raw: Seq<u8>) -> Seq<u8>
    recommends
        raw.len() >= 2,
{
    raw.take(raw.len() - 2)
}

/// The return code of a raw answer: its last two bytes, big-endian.
pub open spec fn answer_retcode(raw: Seq<u8>) -> int
    recommends
        raw.len() >= 2,
{
    raw[raw.len() - 2] as int * 256 + raw[raw.len() - 1] as int
}

/// `ledger_apdu::APDUCommand::serialize`. The crate writes `cla`, `ins`,
/// `p1`, `p2`, the payload's length cast to one byte, and then the payload.
#[verifier::external_body]
fn ledger_serialize(command: &APDUCommand) -> (bytes: Vec<u8>)
    ensures
        bytes@ == framed_command(command.cla, command.ins, command.p1, command.p2, command.data@),
{
    let outside = ledger_apdu::APDUCommand {
        cla: command.cla,
        ins: command.ins,
        p1: command.p1,
        p2: command.p2,
        data: command.data.clone(),
    };
    outside.serialize()
}

/// `ledger_apdu::APDUAnswer::from_answer`. The crate reads the last two
/// bytes as a big-endian return code and keeps what stands before them as
/// the payload. It indexes from the end, so it needs two bytes at least.
#[verifier::external_body]
fn ledger_from_answer(raw: &[u8]) -> (parts: (Vec<u8>, u16))
    requires
        raw@.len() >= 2,
    ensures
        parts.0@ == answer_data(raw@),
        parts.1 as int == answer_retcode(raw@),
{
    let outside = ledger_apdu::APDUAnswer::from_answer(raw.to_vec());
    (outside.data, outside.retcode)
}

impl APDUCommand {
    /// The bytes of this command on the wire.
    pub open spec fn framed(&self) -> Seq<u8> {
        framed_command(self.cla, self.ins, self.p1, self.p2, self.data@)
    }

    /// Frames the command for the wire.
    pub fn serialize(&self) -> (bytes: Vec<u8>)
        ensures
            bytes@ == self.framed(),
            bytes@.len() == self.data@.len() + 5,
    {
        ledger_serialize(self)
    }
}

impl APDUAnswer {
    /// The answer that holds `answer`, whatever its bytes and however many.
    pub fn from_answer(answer: Vec<u8>) -> (made: APDUAnswer)
        ensures
            made@ == answer@,
    {
        APDUAnswer { raw: answer }
    }

    /// The bytes of the answer, all of them.
    pub fn as_bytes(&self) -> (bytes: &[u8])
        ensures
            bytes@ == self@,
    {
        self.raw.as_slice()
    }

    /// The payload: what stands before the return code.
    pub fn data(&self) -> (data: Vec<u8>)
        requires
            self@.len() >= 2,
        ensures
            data@ == answer_data(self@),
    {
        ledger_from_answer(self.raw.as_slice()).0
    }

    /// The return code: the last two bytes, high byte first.
    pub fn retcode(&self) -> (code: u16)
        requires
            self@.len() >= 2,
        ensures
            code as int == answer_retcode(self@),
    {
        ledger_from_answer(self.raw.as_slice()).1
    }
}

/// Payload and return code together hold every byte of a raw answer, in
/// order.
pub proof fn lemma_answer_keeps_every_byte(raw: Seq<u8>)
    requires
        raw.len() >= 2,
    ensures
        0 <= answer_retcode(raw) <= u16::MAX,
        answer_data(raw) + seq![
            (answer_retcode(raw) / 256) as u8,
            (answer_retcode(raw) % 256) as u8,
        ] == raw,
{
    let tail = seq![(answer_retcode(raw) / 256) as u8, (answer_retcode(raw) % 256) as u8];
    assert(tail[0] == raw[raw.len() - 2]);
    assert(tail[1] == raw[raw.len() - 1]);
    assert(answer_data(raw) + tail =~= raw);
}

} // verus!
