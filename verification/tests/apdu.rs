use ledger_zemu::apdu::{APDUAnswer, APDUCommand};

#[test]
fn serialize_writes_header_length_and_payload() {
    let command = APDUCommand { cla: 0x00, ins: 0xA4, p1: 0x04, p2: 0x00, data: vec![1, 2, 3] };
    assert_eq!(command.serialize(), vec![0x00, 0xA4, 0x04, 0x00, 3, 1, 2, 3]);
}

#[test]
fn serialize_without_payload_has_length_zero() {
    let command = APDUCommand { cla: 0x56, ins: 0x01, p1: 0x02, p2: 0x03, data: vec![] };
    assert_eq!(command.serialize(), vec![0x56, 0x01, 0x02, 0x03, 0]);
}

#[test]
fn serialize_keeps_the_longest_payload_one_byte_can_count() {
    let data: Vec<u8> = (0..255u32).map(|i| i as u8).collect();
    let command = APDUCommand { cla: 1, ins: 2, p1: 3, p2: 4, data: data.clone() };
    let bytes = command.serialize();
    assert_eq!(bytes.len(), 260);
    assert_eq!(&bytes[..5], &[1, 2, 3, 4, 255]);
    assert_eq!(&bytes[5..], &data[..]);
}

#[test]
fn serialize_counts_the_payload_modulo_256() {
    let data = vec![7u8; 256];
    let command = APDUCommand { cla: 1, ins: 2, p1: 3, p2: 4, data: data.clone() };
    let bytes = command.serialize();
    assert_eq!(bytes.len(), 261);
    assert_eq!(bytes[4], 0);
    assert_eq!(&bytes[5..], &data[..]);

    let data = vec![7u8; 300];
    let command = APDUCommand { cla: 1, ins: 2, p1: 3, p2: 4, data };
    assert_eq!(command.serialize()[4], 44);
}

#[test]
fn from_answer_keeps_the_bytes_as_they_came() {
    let answer = APDUAnswer::from_answer(vec![1, 2, 3, 0x90, 0x00]);
    assert_eq!(answer.as_bytes(), &[1, 2, 3, 0x90, 0x00]);
}

#[test]
fn from_answer_takes_fewer_than_two_bytes() {
    assert_eq!(APDUAnswer::from_answer(vec![]).as_bytes(), &[] as &[u8]);
    assert_eq!(APDUAnswer::from_answer(vec![0x90]).as_bytes(), &[0x90]);
}

#[test]
fn payload_is_what_stands_before_the_return_code() {
    let answer = APDUAnswer::from_answer(vec![1, 2, 3, 0x90, 0x00]);
    assert_eq!(answer.data(), vec![1, 2, 3]);
    assert_eq!(answer.retcode(), 0x9000);
}

#[test]
fn return_code_is_read_high_byte_first() {
    let answer = APDUAnswer::from_answer(vec![0xAA, 0x6D, 0x01]);
    assert_eq!(answer.data(), vec![0xAA]);
    assert_eq!(answer.retcode(), 0x6D01);
    assert_eq!(APDUAnswer::from_answer(vec![0xFF, 0xFF]).retcode(), 0xFFFF);
    assert_eq!(APDUAnswer::from_answer(vec![0x00, 0x01]).retcode(), 0x0001);
}

#[test]
fn bare_return_code_has_no_payload() {
    let answer = APDUAnswer::from_answer(vec![0x90, 0x00]);
    assert_eq!(answer.data(), Vec::<u8>::new());
    assert_eq!(answer.retcode(), 0x9000);
}

#[test]
fn payload_and_return_code_lose_no_byte() {
    let raw = vec![9, 8, 7, 6, 0x6A, 0x80];
    let answer = APDUAnswer::from_answer(raw.clone());
    let mut back = answer.data();
    back.push((answer.retcode() / 256) as u8);
    back.push((answer.retcode() % 256) as u8);
    assert_eq!(back, raw);
}
