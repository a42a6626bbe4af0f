use nat_greeter::greeter::{hello_request, HelloReply, HelloRequest, HelloWorldService};

fn greet(name: &str) -> String {
    HelloWorldService::default().say_hello(HelloRequest { name: name.to_string() }).message
}

#[test]
fn greets_by_name() {
    assert_eq!(greet("Tonic"), "hello Tonic");
    assert_eq!(greet(""), "hello ");
    assert_eq!(greet("hello "), "hello hello ");
    assert_eq!(greet("\u{4e16}\u{754c}"), "hello \u{4e16}\u{754c}");
}

#[test]
fn different_names_are_greeted_differently() {
    assert_ne!(greet("a"), greet("A"));
    assert_ne!(greet(" a"), greet("a"));
}

#[test]
fn the_clients_request_is_answered() {
    let request = hello_request();
    assert_eq!(request, HelloRequest { name: "Tonic".to_string() });
    assert_eq!(
        HelloWorldService {}.say_hello(request),
        HelloReply { message: "hello Tonic".to_string() },
    );
}
