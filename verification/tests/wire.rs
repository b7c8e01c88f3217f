use mpvctl::domain::{Command, Error, Fault, Property, PropertyValue, Request, Response};
use mpvctl::exchange::{Envelope, Exchange, Token};
use mpvctl::framing::frame;
use mpvctl::service::{
    get_clean_media_title, get_current_chapter, get_total_chapters, get_volume, increase_volume,
    is_paused,
};
use serde_json::{Number, Value};

fn element(value: &PropertyValue) -> Value {
    match value {
        PropertyValue::Integer(number) => Value::from(*number),
        PropertyValue::Float(bits) => Value::from(f32::from_bits(*bits)),
        PropertyValue::String(text) => Value::from(text.as_str()),
        PropertyValue::Bool(flag) => Value::from(*flag),
    }
}

fn render(request: &Request) -> String {
    let mut object = serde_json::Map::new();
    object.insert("command".to_string(), Value::Array(request.command.iter().map(element).collect()));
    Value::Object(object).to_string()
}

fn single(number: &Number) -> f32 {
    if let Some(unsigned) = number.as_u64() {
        unsigned as f32
    } else if let Some(signed) = number.as_i64() {
        signed as f32
    } else {
        number.as_f64().map_or(f32::NAN, |double| double as f32)
    }
}

fn token(member: Option<&Value>) -> Token {
    match member {
        None => Token::Absent,
        Some(Value::Null) => Token::Null,
        Some(Value::Bool(flag)) => Token::Flag(*flag),
        Some(Value::Number(number)) => {
            Token::Number { integer: number.as_i64(), single: single(number).to_bits() }
        }
        Some(Value::String(text)) => Token::Text(text.clone()),
        Some(Value::Array(_)) | Some(Value::Object(_)) => Token::Compound,
    }
}

fn parse(line: &str) -> Option<Envelope> {
    let object: serde_json::Map<String, Value> = serde_json::from_str(line).ok()?;
    Some(Envelope {
        data: token(object.get("data")),
        request_id: token(object.get("request_id")),
        error: token(object.get("error")),
    })
}

/// The exchange in which `line` is all that the player sent.
fn answered(line: &str) -> Exchange {
    Exchange::Received { line: line.to_string(), envelope: parse(line) }
}

fn line_of(command: &Command) -> String {
    frame(&render(&command.request())).unwrap()
}

#[test]
fn a_read_goes_out_as_one_line_of_json() {
    assert_eq!(
        line_of(&Command::GetProperty(Property::Volume)),
        "{\"command\":[\"get_property\",\"volume\"]}\n"
    );
    assert_eq!(
        line_of(&Command::GetProperty(Property::MediaTitle)),
        "{\"command\":[\"get_property\",\"media-title\"]}\n"
    );
}

#[test]
fn a_write_goes_out_with_its_value_in_third_place() {
    assert_eq!(
        line_of(&Command::SetProperty(Property::Volume, PropertyValue::Integer(100))),
        "{\"command\":[\"set_property\",\"volume\",100]}\n"
    );
    assert_eq!(
        line_of(&Command::SetProperty(Property::Pause, PropertyValue::Bool(false))),
        "{\"command\":[\"set_property\",\"pause\",false]}\n"
    );
    assert_eq!(
        line_of(&Command::SetProperty(Property::Chapter, PropertyValue::Integer(-1))),
        "{\"command\":[\"set_property\",\"chapter\",-1]}\n"
    );
}

#[test]
fn a_written_text_stays_on_its_line() {
    let title = PropertyValue::String("two\nlines \"quoted\"".to_string());
    assert_eq!(
        line_of(&Command::SetProperty(Property::MediaTitle, title)),
        "{\"command\":[\"set_property\",\"media-title\",\"two\\nlines \\\"quoted\\\"\"]}\n"
    );
}

#[test]
fn a_written_float_is_a_json_number() {
    let half = PropertyValue::Float(0.5f32.to_bits());
    assert_eq!(
        line_of(&Command::SetProperty(Property::Volume, half)),
        "{\"command\":[\"set_property\",\"volume\",0.5]}\n"
    );
}

#[test]
fn round_trip_of_a_volume_read_over_json() {
    let command = Command::GetProperty(Property::Volume);
    assert_eq!(line_of(&command), "{\"command\":[\"get_property\",\"volume\"]}\n");
    let line = "{\"data\":42,\"request_id\":0,\"error\":\"success\"}\n";
    assert_eq!(
        command.execute(answered(line)),
        Ok(Response {
            data: Some(PropertyValue::Integer(42)),
            request_id: 0,
            error: "success".to_string()
        })
    );
    assert_eq!(get_volume(answered(line)), Ok(42));
}

#[test]
fn a_reply_may_order_and_space_its_members_freely() {
    let line = " { \"error\" : \"success\", \"request_id\" : 3, \"extra\" : [], \"data\" : true } \n";
    assert_eq!(is_paused(answered(line)), Ok(true));
    let response = Command::GetProperty(Property::Pause).execute(answered(line)).unwrap();
    assert_eq!(response.request_id, 3);
}

#[test]
fn a_number_with_a_fraction_is_a_float() {
    let line = "{\"data\":42.5,\"request_id\":0,\"error\":\"success\"}\n";
    let response = Command::GetProperty(Property::Volume).execute(answered(line)).unwrap();
    assert_eq!(response.data, Some(PropertyValue::Float(42.5f32.to_bits())));
    assert_eq!(get_volume(answered(line)), Ok(42));
    let line = "{\"data\":-3.7,\"request_id\":0,\"error\":\"success\"}\n";
    assert_eq!(get_volume(answered(line)), Ok(-3));
    let line = "{\"data\":7.0,\"request_id\":0,\"error\":\"success\"}\n";
    let response = Command::GetProperty(Property::Chapters).execute(answered(line)).unwrap();
    assert_eq!(response.data, Some(PropertyValue::Float(7.0f32.to_bits())));
    assert_eq!(get_total_chapters(answered(line)), Some(7));
}

#[test]
fn an_integer_beyond_32_bits_is_a_float() {
    let line = "{\"data\":3000000000,\"request_id\":0,\"error\":\"success\"}\n";
    let response = Command::GetProperty(Property::Volume).execute(answered(line)).unwrap();
    assert_eq!(response.data, Some(PropertyValue::Float(3.0e9f32.to_bits())));
    assert_eq!(get_volume(answered(line)), Ok(i32::MAX));
    let line = "{\"data\":-3000000000,\"request_id\":0,\"error\":\"success\"}\n";
    assert_eq!(get_volume(answered(line)), Ok(i32::MIN));
    let line = "{\"data\":18446744073709551615,\"request_id\":0,\"error\":\"success\"}\n";
    assert_eq!(get_volume(answered(line)), Ok(i32::MAX));
    let line = "{\"data\":2147483647,\"request_id\":0,\"error\":\"success\"}\n";
    assert_eq!(get_volume(answered(line)), Ok(i32::MAX));
    let response = Command::GetProperty(Property::Volume).execute(answered(line)).unwrap();
    assert_eq!(response.data, Some(PropertyValue::Integer(i32::MAX)));
}

#[test]
fn a_reply_without_data_carries_none() {
    let line = "{\"request_id\":0,\"error\":\"success\"}\n";
    let response = Command::GetProperty(Property::Volume).execute(answered(line)).unwrap();
    assert_eq!(response.data, None);
    assert_eq!(get_volume(answered(line)), Err(Error::MissingData(Property::Volume)));
    let line = "{\"data\":null,\"request_id\":0,\"error\":\"property unavailable\"}\n";
    let response = Command::GetProperty(Property::Chapter).execute(answered(line)).unwrap();
    assert_eq!(response.data, None);
    assert_eq!(response.error, "property unavailable");
    assert_eq!(get_current_chapter(answered(line)), None);
}

#[test]
fn a_title_comes_back_clean() {
    let line = "{\"data\":\"Movie Title - 1080p | x264\",\"request_id\":0,\"error\":\"success\"}\n";
    assert_eq!(get_clean_media_title(answered(line)), Ok("Movie Title".to_string()));
    let line = "{\"data\":\"Rock \\u0026 Roll\",\"request_id\":0,\"error\":\"success\"}\n";
    assert_eq!(get_clean_media_title(answered(line)), Ok("Rock and Roll".to_string()));
}

#[test]
fn a_line_that_is_no_response_fails_to_decode() {
    for line in [
        "\n",
        "null\n",
        "42\n",
        "[42,0,\"success\"]\n",
        "{\"data\":42\n",
        "{\"event\":\"pause\"}\n",
        "{\"data\":42,\"error\":\"success\"}\n",
        "{\"data\":42,\"request_id\":0}\n",
        "{\"data\":42,\"request_id\":256,\"error\":\"success\"}\n",
        "{\"data\":42,\"request_id\":-1,\"error\":\"success\"}\n",
        "{\"data\":42,\"request_id\":0.0,\"error\":\"success\"}\n",
        "{\"data\":42,\"request_id\":\"0\",\"error\":\"success\"}\n",
        "{\"data\":42,\"request_id\":0,\"error\":null}\n",
        "{\"data\":[42],\"request_id\":0,\"error\":\"success\"}\n",
        "{\"data\":{\"a\":1},\"request_id\":0,\"error\":\"success\"}\n",
    ] {
        assert_eq!(get_volume(answered(line)), Err(Error::Decode), "line {:?}", line);
    }
}

#[test]
fn a_reply_cut_short_is_a_closed_stream() {
    for line in [
        "",
        "{",
        "{\"data\":42,\"request_id\":0,\"error\":\"succ",
        "{\"data\":42,\"request_id\":0,\"error\":\"success\"}",
    ] {
        assert_eq!(
            get_volume(answered(line)),
            Err(Error::Transport(Fault::Closed)),
            "line {:?}",
            line
        );
        assert_eq!(
            increase_volume(answered(line), 5),
            Err(Error::Transport(Fault::Closed)),
            "line {:?}",
            line
        );
        assert_eq!(get_total_chapters(answered(line)), None, "line {:?}", line);
    }
}
