use tcp_demo::protocol::{Deserialize, Request, Response, Serialize};
use tcp_demo::server::{jumble_message, respond};
use tcp_demo::wire::ByteReader;

fn exchange(request: Request) -> String {
    let mut to_server: Vec<u8> = vec![];
    request.serialize(&mut to_server).unwrap();
    let received = Request::deserialize(&mut ByteReader::new(to_server)).unwrap();
    let response = respond(received);
    let mut to_client: Vec<u8> = vec![];
    response.serialize(&mut to_client).unwrap();
    let answer = Response::deserialize(&mut ByteReader::new(to_client)).unwrap();
    String::from(answer.message())
}

#[test]
fn echo_exchange() {
    assert_eq!(exchange(Request::Echo(String::from("Hello"))), "'Hello' from the other side!");
}

#[test]
fn jumble_exchange() {
    let request = Request::Jumble { message: String::from("Hello"), amount: 3 };
    assert_eq!(exchange(request), "lHelo");
}

#[test]
fn jumble_step_by_step() {
    assert_eq!(jumble_message("Hello", 0), "Hello");
    assert_eq!(jumble_message("Hello", 1), "eHllo");
    assert_eq!(jumble_message("Hello", 2), "lHelo");
    assert_eq!(jumble_message("Hello", 3), "lHelo");
    assert_eq!(jumble_message("Hello", 4), "oHell");
    assert_eq!(jumble_message("Hello", 5), "oHell");
    assert_eq!(jumble_message("Hello", 6), "Hoell");
}

#[test]
fn jumble_is_the_same_on_every_call() {
    let first = jumble_message("deterministic", 1000);
    for _ in 0..5 {
        assert_eq!(jumble_message("deterministic", 1000), first);
    }
}

#[test]
fn jumble_of_zero_leaves_the_message() {
    assert_eq!(jumble_message("Hello", 0), "Hello");
    assert_eq!(jumble_message("", 0), "");
    assert_eq!(jumble_message("\u{e9}t\u{e9}", 0), "\u{e9}t\u{e9}");
}

#[test]
fn jumble_keeps_the_characters() {
    let jumbled = jumble_message("abcdefg", 65535);
    let mut sorted: Vec<char> = jumbled.chars().collect();
    sorted.sort();
    assert_eq!(sorted, vec!['a', 'b', 'c', 'd', 'e', 'f', 'g']);
}

#[test]
fn jumble_moves_characters_not_bytes() {
    assert_eq!(jumble_message("\u{e9}a", 1), "a\u{e9}");
    assert_eq!(jumble_message("x", 9), "x");
}

#[test]
fn respond_to_echo() {
    let response = respond(Request::Echo(String::new()));
    assert_eq!(response.message(), "'' from the other side!");
}

#[test]
fn respond_to_jumble() {
    let response = respond(Request::Jumble { message: String::from("ab"), amount: 1 });
    assert_eq!(response.message(), "ba");
}
