use ledger_zemu::apdu::APDUCommand;
use ledger_zemu::client::{RpcFailure, TransportZemuGrpc};
use ledger_zemu::errors::LedgerZemuError;
use ledger_zemu::server::{GrpcServerImpl, ZemuResponse};
use ledger_zemu::zemu::{ExchangeReply, ExchangeRequest};

#[test]
fn adapter_without_a_channel_is_a_connect_error() {
    let made = TransportZemuGrpc::<String>::new(None);
    assert!(matches!(made, Err(LedgerZemuError::ConnectError)));
}

#[test]
fn adapter_keeps_the_channel_it_was_given() {
    let made = TransportZemuGrpc::new(Some(String::from("channel to 127.0.0.1:3002")));
    match made {
        Ok(transport) => assert_eq!(transport.client(), "channel to 127.0.0.1:3002"),
        Err(error) => panic!("no adapter: {:?}", error),
    }
}

#[test]
fn request_carries_the_framed_command() {
    let transport = TransportZemuGrpc::new(Some(())).unwrap();
    let command = APDUCommand { cla: 0x00, ins: 0xA4, p1: 0x04, p2: 0x00, data: vec![0x3F, 0x00] };
    let request = transport.request(&command);
    assert_eq!(request.command, vec![0x00, 0xA4, 0x04, 0x00, 2, 0x3F, 0x00]);
}

#[test]
fn request_for_a_command_without_payload() {
    let transport = TransportZemuGrpc::new(Some(())).unwrap();
    let command = APDUCommand { cla: 0xE0, ins: 0x01, p1: 0x00, p2: 0x00, data: vec![] };
    assert_eq!(transport.request(&command).command, vec![0xE0, 0x01, 0x00, 0x00, 0]);
}

#[test]
fn answer_holds_the_reply_as_it_came() {
    let transport = TransportZemuGrpc::new(Some(())).unwrap();
    let answer = transport.answer(Ok(ExchangeReply::new(vec![0xCA, 0xFE, 0x90, 0x00]))).unwrap();
    assert_eq!(answer.as_bytes(), &[0xCA, 0xFE, 0x90, 0x00]);
    assert_eq!(answer.data(), vec![0xCA, 0xFE]);
    assert_eq!(answer.retcode(), 0x9000);
}

#[test]
fn answer_does_not_read_a_return_code_as_a_failure() {
    let transport = TransportZemuGrpc::new(Some(())).unwrap();
    let answer = transport.answer(Ok(ExchangeReply::new(vec![0x6D, 0x00])));
    match answer {
        Ok(answer) => assert_eq!(answer.as_bytes(), &[0x6D, 0x00]),
        Err(error) => panic!("a reply was read as {:?}", error),
    }
}

#[test]
fn empty_reply_is_an_empty_answer() {
    let transport = TransportZemuGrpc::new(Some(())).unwrap();
    match transport.answer(Ok(ExchangeReply::new(vec![]))) {
        Ok(answer) => assert_eq!(answer.as_bytes(), &[] as &[u8]),
        Err(error) => panic!("a reply was read as {:?}", error),
    }
}

#[test]
fn reply_of_one_byte_is_an_answer_of_one_byte() {
    let transport = TransportZemuGrpc::new(Some(())).unwrap();
    match transport.answer(Ok(ExchangeReply::new(vec![0x90]))) {
        Ok(answer) => assert_eq!(answer.as_bytes(), &[0x90]),
        Err(error) => panic!("a reply was read as {:?}", error),
    }
}

#[test]
fn every_reply_the_server_gives_is_answered() {
    let server = GrpcServerImpl::new(String::from("127.0.0.1"), 9998);
    let transport = TransportZemuGrpc::new(Some(())).unwrap();
    for data in ["", "90", "9000", "0102039000"] {
        let parsed = Some(ZemuResponse { data: String::from(data), error: None });
        let reply = server.after_parse(parsed).unwrap();
        let sent = reply.reply.clone();
        let answer = transport.answer(Ok(reply)).unwrap();
        assert_eq!(answer.as_bytes(), &sent[..]);
        assert_eq!(answer.as_bytes(), &hex::decode(data).unwrap()[..]);
    }
}

#[test]
fn failed_call_is_a_response_error() {
    let transport = TransportZemuGrpc::new(Some(())).unwrap();
    let answer = transport.answer(Err(RpcFailure));
    assert!(matches!(answer, Err(LedgerZemuError::ResponseError)));
}

#[test]
fn messages_carry_their_bytes() {
    assert_eq!(ExchangeRequest::new(vec![1, 2, 3]).command, vec![1, 2, 3]);
    assert_eq!(ExchangeReply::new(vec![4, 5]).reply, vec![4, 5]);
    assert_eq!(ExchangeRequest::new(vec![]).command, Vec::<u8>::new());
}

#[test]
fn adapter_keeps_nothing_between_exchanges() {
    let transport = TransportZemuGrpc::new(Some(())).unwrap();
    let command = APDUCommand { cla: 1, ins: 2, p1: 3, p2: 4, data: vec![5] };
    let first = transport.request(&command).command;
    assert!(transport.answer(Err(RpcFailure)).is_err());
    let second = transport.request(&command).command;
    assert_eq!(first, second);
    let answer = transport.answer(Ok(ExchangeReply::new(vec![0x90, 0x00]))).unwrap();
    assert_eq!(answer.as_bytes(), &[0x90, 0x00]);
}
