use mod_server::status::StatusWriter;
use mod_server::webhook::{Client, Payload, Post};

#[test]
fn writer_without_channel_sends_nothing() {
    assert_eq!(StatusWriter::none().write("server exited".to_string()), None);
}

#[test]
fn writer_with_channel_sends_the_message_as_content() {
    let writer = StatusWriter::from(Client::open("https://hooks.example.com/1".to_string()));
    assert_eq!(
        writer.write("server exited".to_string()),
        Some(Post {
            url: "https://hooks.example.com/1".to_string(),
            payload: Payload { content: "server exited".to_string(), username: None, avatar_url: None },
        })
    );
}

#[test]
fn client_addresses_what_it_posts() {
    let client = Client::open("https://hooks.example.com/2".to_string());
    assert_eq!(client.url(), "https://hooks.example.com/2");
    let payload = Payload {
        content: "up".to_string(),
        username: Some("keeper".to_string()),
        avatar_url: Some("https://example.com/a.png".to_string()),
    };
    let post = client.post(Payload {
        content: "up".to_string(),
        username: Some("keeper".to_string()),
        avatar_url: Some("https://example.com/a.png".to_string()),
    });
    assert_eq!(post, Post { url: "https://hooks.example.com/2".to_string(), payload });
}
