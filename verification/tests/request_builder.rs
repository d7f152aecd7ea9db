use openai_chat::chat::{
    ChatCompletion, ChatCompletionMessage, ChatCompletionMessageRole,
};

#[test]
fn builder_fills_required_fields_and_defaults() {
    let message = ChatCompletionMessage {
        role: ChatCompletionMessageRole::User,
        content: "Hello!".to_string(),
        name: None,
    };
    let request = ChatCompletion::builder("gpt-3.5-turbo", vec![message.clone()]).build();
    assert_eq!(request.model, "gpt-3.5-turbo");
    assert_eq!(request.messages, vec![message]);
    assert_eq!(request.n, None);
    assert_eq!(request.stream, None);
    assert!(request.stop.is_empty());
    assert_eq!(request.max_tokens, None);
    assert_eq!(request.user, "");
}

#[test]
fn builder_setters_fill_the_controls() {
    let message = ChatCompletionMessage {
        role: ChatCompletionMessageRole::System,
        content: "You are terse.".to_string(),
        name: Some("sys".to_string()),
    };
    let request = ChatCompletion::builder("gpt-4", vec![message])
        .n(2)
        .stream(true)
        .stop(vec!["\n\n".to_string()])
        .max_tokens(128)
        .user("tester")
        .build();
    assert_eq!(request.model, "gpt-4");
    assert_eq!(request.n, Some(2));
    assert_eq!(request.stream, Some(true));
    assert_eq!(request.stop, vec!["\n\n".to_string()]);
    assert_eq!(request.max_tokens, Some(128));
    assert_eq!(request.user, "tester");
}

#[test]
fn builder_replacement_setters_overwrite() {
    let request = ChatCompletion::builder("gpt-3.5-turbo", vec![])
        .model("gpt-4")
        .messages(vec![ChatCompletionMessage {
            role: ChatCompletionMessageRole::Assistant,
            content: "Hi".to_string(),
            name: None,
        }])
        .build();
    assert_eq!(request.model, "gpt-4");
    assert_eq!(request.messages.len(), 1);
    assert_eq!(
        request.messages[0].role,
        ChatCompletionMessageRole::Assistant
    );
}
