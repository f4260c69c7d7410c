use cohere_rust::api::chat::{ChatResponse, ChatStreamResponse};
use cohere_rust::api::detokenize::DetokenizeRequest;
use cohere_rust::api::tokenize::TokenizeRequest;
use cohere_rust::api::GenerateModel;
use cohere_rust::exchange::HttpReply;
use cohere_rust::status::HttpStatus;
use cohere_rust::stream::decode_stream;
use cohere_rust::Cohere;

fn reply(status: u16, body: &str) -> HttpReply {
    HttpReply { status: HttpStatus::from_u16(status).unwrap(), body: body.as_bytes().to_vec() }
}

#[test]
fn test_detokenize() {
    let client = Cohere::new("http://127.0.0.1:1234", "test-key");

    let request = DetokenizeRequest {
        tokens: &[10104, 12221, 1315, 34, 1420, 69],
        model: Some(GenerateModel::CommandNightly),
    };
    let sent = client.detokenize_request(&request);
    assert_eq!("http://127.0.0.1:1234/detokenize", sent.url);
    assert_eq!(
        r#"{"tokens":[10104,12221,1315,34,1420,69],"model":"command-nightly"}"#,
        sent.body
    );

    let response = client.detokenize(&reply(
        200,
        r#"{
                    "text": "detokenized! :D",
                    "meta": {
                      "api_version": {
                        "version": "1"
                      }
                    }
                  }"#,
    ));

    assert!(response.is_ok());

    let response = response.unwrap();

    assert_eq!("detokenized! :D".to_string(), response);
}

#[test]
fn test_chat() {
    let mock_chat_stream = [
            "{\"is_finished\":false,\"event_type\":\"stream-start\",\"generation_id\":\"0c9cb118-f841-4588-b835-f9a4fe2c572e\"}\n",
            "{\"is_finished\":false,\"event_type\":\"text-generation\",\"text\":\" Thomas\"}\n",
            "{\"is_finished\":false,\"event_type\":\"text-generation\",\"text\":\" P\"}\n",
            "{\"is_finished\":false,\"event_type\":\"text-generation\",\"text\":\".\"}\n",
            "{\"is_finished\":false,\"event_type\":\"text-generation\",\"text\":\" Frank\"}\n",
            "{\"is_finished\":false,\"event_type\":\"text-generation\",\"text\":\".\"}\n",
            "{\"is_finished\":true,\"event_type\":\"stream-end\",\"response\":{\"response_id\":\"feab94ed-789b-42f2-8f4f-c49d56d28734\",\"text\":\"Thomas P. Frank.\",\"generation_id\":\"0c9cb118-f841-4588-b835-f9a4fe2c572e\",\"token_count\":{\"prompt_tokens\":71,\"response_tokens\":17,\"total_tokens\":88,\"billed_tokens\":77}},\"finish_reason\":\"COMPLETE\"}\n",
        ];
    let chunks: Vec<Vec<u8>> = mock_chat_stream.iter().map(|chunk| chunk.as_bytes().to_vec()).collect();

    let stream = decode_stream(&chunks);
    let expected_messages = [
        ChatStreamResponse::ChatStreamStart {
            generation_id: "0c9cb118-f841-4588-b835-f9a4fe2c572e".to_string(),
            is_finished: false,
        },
        ChatStreamResponse::ChatTextGeneration {
            is_finished: false,
            text: " Thomas".to_string(),
        },
        ChatStreamResponse::ChatTextGeneration {
            is_finished: false,
            text: " P".to_string(),
        },
        ChatStreamResponse::ChatTextGeneration {
            is_finished: false,
            text: ".".to_string(),
        },
        ChatStreamResponse::ChatTextGeneration {
            is_finished: false,
            text: " Frank".to_string(),
        },
        ChatStreamResponse::ChatTextGeneration {
            is_finished: false,
            text: ".".to_string(),
        },
        ChatStreamResponse::ChatStreamEnd {
            finish_reason: "COMPLETE".to_string(),
            is_finished: true,
            response: ChatResponse {
                generation_id: "0c9cb118-f841-4588-b835-f9a4fe2c572e".to_string(),
                response_id: "feab94ed-789b-42f2-8f4f-c49d56d28734".to_string(),
                text: "Thomas P. Frank.".to_string(),
            },
        },
    ];

    let mut count: usize = 0;
    for message in stream {
        assert!(message.is_ok());
        assert_eq!(expected_messages[count], message.unwrap());
        count += 1;
    }
    assert_eq!(expected_messages.len(), count);
}

#[test]
fn test_tokenize() {
    let client = Cohere::new("http://127.0.0.1:1234", "test-key");

    let request = TokenizeRequest {
        text: "tokenize me! :D",
        model: Some(GenerateModel::CommandNightly),
    };
    let sent = client.tokenize_request(&request);
    assert_eq!("http://127.0.0.1:1234/tokenize", sent.url);
    assert_eq!(r#"{"text":"tokenize me! :D","model":"command-nightly"}"#, sent.body);

    let response = client.tokenize(&reply(
        200,
        r#"{
                    "tokens": [
                      34160,
                      974,
                      514,
                      34,
                      1420,
                      69
                    ],
                    "token_strings": [
                      "token",
                      "ize",
                      " me",
                      "!",
                      " :",
                      "D"
                    ],
                    "meta": {
                      "api_version": {
                        "version": "1"
                      }
                    }
                  }"#,
    ));

    assert!(response.is_ok());

    let response = response.unwrap();

    assert_eq!(vec![34160, 974, 514, 34, 1420, 69], response.tokens);
    assert_eq!(
        vec!["token", "ize", " me", "!", " :", "D"],
        response.token_strings
    );
}

#[test]
fn test_api_failure() {
    let client = Cohere::new("http://127.0.0.1:1234", "test-key");

    let request = TokenizeRequest {
        text: "",
        model: None,
    };
    let sent = client.tokenize_request(&request);
    assert_eq!(r#"{"text":""}"#, sent.body);

    let response = client.tokenize(&reply(
        500,
        r#"{"message":"invalid request: inputs cannot be empty"}"#,
    ));

    assert!(response.is_err());

    let response = response.err().unwrap();

    assert_eq!("API request failed with status code `500 Internal Server Error` and error message `invalid request: inputs cannot be empty`", response.to_string());
}
