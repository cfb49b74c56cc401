use philipshue::http::{Method, Request};
use philipshue::json::{parse, Decode, Json};
use philipshue::light::{
    read_light, read_lights, Capabilities, CapabilitiesControl, CapabilitiesControlCT,
    CapabilitiesStreaming, HueLight, HueLightConfig, HueLightSoftwareUpdate, HueLightState, Lights,
};
use philipshue::{Hue, HueBridge, HueError, RequestFailure};

fn hue() -> Hue {
    Hue::new(HueBridge::new("https://10.0.0.5".to_string()), "token".to_string())
}

const LAMP: &str = r#"{
    "state": {"on": true, "bri": 200, "hue": 8402, "sat": 140, "effect": "none",
              "xy": [0.4575, 0.4099], "ct": 366, "alert": "select", "colormode": "ct",
              "mode": "homeautomation", "reachable": true},
    "swupdate": {"state": "noupdates", "lastinstall": "2021-03-10T13:03:28"},
    "type": "Extended color light",
    "name": "Lamp",
    "modelid": "LCT015",
    "manufacturername": "Signify Netherlands B.V.",
    "productname": "Hue color lamp",
    "capabilities": {"certified": true,
                     "control": {"mindimlevel": 1000, "maxlumen": 806,
                                 "ct": {"min": 153, "max": 500}},
                     "streaming": {"renderer": true, "proxy": false}},
    "config": {"archetype": "sultanbulb", "function": "mixed", "direction": "omnidirectional",
               "startup": {"mode": "safety", "configured": true}},
    "uniqueid": "00:17:88:01:04:a1:b2:c3-0b",
    "swversion": "1.88.1",
    "productid": "Philips-LCT015-1-A19ECLv5"
}"#;

const PLUG: &str = r#"{
    "state": {"on": false, "alert": "none", "mode": "homeautomation", "reachable": false,
              "colormode": null},
    "swupdate": {"state": "transferring", "lastinstall": ""},
    "type": "On/Off plug-in unit",
    "name": "Plug",
    "modelid": "LOM001",
    "manufacturername": "Signify",
    "productname": "Hue Smart plug",
    "capabilities": {"certified": false, "control": {}, "streaming": {"renderer": false, "proxy": false}},
    "config": {"archetype": "plug", "function": "functional", "direction": "omnidirectional"},
    "uniqueid": "00:17:88:01:08:ff:ee:dd-0b",
    "swversion": "1.65.9"
}"#;

fn lamp() -> HueLight {
    HueLight {
        state: HueLightState {
            on: true,
            bri: Some(200),
            hue: Some(8402),
            sat: Some(140),
            ct: Some(366),
            alert: "select".to_string(),
            colormode: Some("ct".to_string()),
            mode: "homeautomation".to_string(),
            reachable: true,
        },
        _type: "Extended color light".to_string(),
        name: "Lamp".to_string(),
        model_id: "LCT015".to_string(),
        manufacturer_name: "Signify Netherlands B.V.".to_string(),
        product_name: "Hue color lamp".to_string(),
        software_update: HueLightSoftwareUpdate {
            state: "noupdates".to_string(),
            last_install: "2021-03-10T13:03:28".to_string(),
        },
        unique_id: "00:17:88:01:04:a1:b2:c3-0b".to_string(),
        software_version: "1.88.1".to_string(),
        capabilities: Capabilities {
            certified: true,
            control: CapabilitiesControl { ct: Some(CapabilitiesControlCT { min: 153, max: 500 }) },
            streaming: CapabilitiesStreaming { renderer: true, proxy: false },
        },
        config: HueLightConfig {
            archetype: "sultanbulb".to_string(),
            function: "mixed".to_string(),
            direction: "omnidirectional".to_string(),
        },
    }
}

fn plug() -> HueLight {
    HueLight {
        state: HueLightState {
            on: false,
            bri: None,
            hue: None,
            sat: None,
            ct: None,
            alert: "none".to_string(),
            colormode: None,
            mode: "homeautomation".to_string(),
            reachable: false,
        },
        _type: "On/Off plug-in unit".to_string(),
        name: "Plug".to_string(),
        model_id: "LOM001".to_string(),
        manufacturer_name: "Signify".to_string(),
        product_name: "Hue Smart plug".to_string(),
        software_update: HueLightSoftwareUpdate {
            state: "transferring".to_string(),
            last_install: String::new(),
        },
        unique_id: "00:17:88:01:08:ff:ee:dd-0b".to_string(),
        software_version: "1.65.9".to_string(),
        capabilities: Capabilities {
            certified: false,
            control: CapabilitiesControl { ct: None },
            streaming: CapabilitiesStreaming { renderer: false, proxy: false },
        },
        config: HueLightConfig {
            archetype: "plug".to_string(),
            function: "functional".to_string(),
            direction: "omnidirectional".to_string(),
        },
    }
}

fn body_failure<T>() -> Result<T, HueError> {
    Err(HueError::RequestError(RequestFailure::Body))
}

fn sorted(lights: Lights) -> Vec<(String, HueLight)> {
    let mut entries = lights.into_entries();
    entries.sort_by(|a, b| a.0.cmp(&b.0));
    entries
}

#[test]
fn lights_request_is_a_get_below_the_session() {
    assert_eq!(
        hue().lights_request(),
        Request {
            method: Method::Get,
            url: "https://10.0.0.5/api/token/lights".to_string(),
            body: None
        }
    );
}

#[test]
fn get_light_request_names_the_light() {
    assert_eq!(
        hue().get_light_request("12"),
        Request {
            method: Method::Get,
            url: "https://10.0.0.5/api/token/lights/12".to_string(),
            body: None
        }
    );
    assert_eq!(hue().get_light_request("").url, "https://10.0.0.5/api/token/lights/");
}

#[test]
fn list_lights_scenario() {
    let body = format!(r#"{{"1":{LAMP}}}"#);
    let lights = hue().lights(200, &body).unwrap();
    assert_eq!(lights.len(), 1);
    let light = lights.get("1").unwrap();
    assert_eq!(light.name, "Lamp");
    assert!(light.state.on);
    assert_eq!(light.state.bri, Some(200));
    assert_eq!(light, &lamp());
    assert_eq!(lights.get("2"), None);
    assert_eq!(lights.get(""), None);
}

#[test]
fn lights_are_listed_under_their_numbers() {
    let body = format!(r#"{{"7":{PLUG}, "1":{LAMP}}}"#);
    let lights = hue().lights(200, &body).unwrap();
    assert_eq!(lights.len(), 2);
    assert_eq!(lights.get("1"), Some(&lamp()));
    assert_eq!(lights.get("7"), Some(&plug()));
    assert_eq!(lights.get("17"), None);
    assert_eq!(sorted(lights), vec![("1".to_string(), lamp()), ("7".to_string(), plug())]);
}

#[test]
fn no_lights() {
    assert_eq!(hue().lights(200, "{}").unwrap().len(), 0);
    assert_eq!(sorted(hue().lights(200, "{}").unwrap()), Vec::new());
    assert_eq!(Lights::new().get("1"), None);
    assert_eq!(Lights::new().into_entries(), Vec::new());
}

#[test]
fn lights_status_outside_2xx_is_a_request_failure() {
    let body = format!(r#"{{"1":{LAMP}}}"#);
    for status in [100u16, 199, 300, 302, 401, 404, 500] {
        assert_eq!(
            hue().lights(status, &body).err(),
            Some(HueError::RequestError(RequestFailure::Status(status)))
        );
        assert_eq!(
            hue().get_light(status, LAMP),
            Err(HueError::RequestError(RequestFailure::Status(status)))
        );
    }
    assert!(hue().lights(201, &body).is_ok());
    assert!(hue().get_light(299, LAMP).is_ok());
}

#[test]
fn lights_body_that_is_no_object_of_lights() {
    let with_bad = format!(r#"{{"1":{LAMP}, "2": {{"name": "half"}}}}"#);
    let bodies = ["", "[]", "null", "7", r#"{"1": 5}"#, r#"{"1": {}}"#, with_bad.as_str(), LAMP];
    for body in bodies {
        assert_eq!(
            hue().lights(200, body).err(),
            Some(HueError::RequestError(RequestFailure::Body)),
            "{body}"
        );
    }
}

#[test]
fn lights_are_not_wrapped_in_an_envelope() {
    let body = r#"[{"error":{"type":1,"address":"/lights","description":"unauthorized user"}}]"#;
    assert_eq!(hue().lights(200, body).err(), Some(HueError::RequestError(RequestFailure::Body)));
    assert_eq!(hue().get_light(200, body), body_failure());
}

#[test]
fn get_light_reads_one_record() {
    assert_eq!(hue().get_light(200, LAMP), Ok(lamp()));
    assert_eq!(hue().get_light(200, PLUG), Ok(plug()));
}

#[test]
fn get_light_body_that_is_no_light() {
    for body in ["", "{}", "[]", r#"{"name":"Lamp"}"#, "{\"1\":{}}"] {
        assert_eq!(hue().get_light(200, body), body_failure(), "{body}");
    }
}

#[test]
fn every_member_of_a_light_has_to_be_there() {
    let keys = [
        "state",
        "type",
        "name",
        "modelid",
        "manufacturername",
        "productname",
        "swupdate",
        "uniqueid",
        "swversion",
        "capabilities",
        "config",
    ];
    let full = parse(LAMP).unwrap();
    let members = match &full {
        Json::Object(members) => members,
        other => panic!("{other:?}"),
    };
    for key in keys {
        let mut pruned = Vec::new();
        for (k, v) in members {
            if k != key {
                pruned.push((k.clone(), parse(&serde_json_text(v)).unwrap()));
            }
        }
        assert_eq!(HueLight::from_json(&Json::Object(pruned)), None, "{key}");
    }
    assert_eq!(HueLight::from_json(&full), Some(lamp()));
}

fn serde_json_text(doc: &Json) -> String {
    match doc {
        Json::Null => "null".to_string(),
        Json::Bool(b) => b.to_string(),
        Json::Number(Some(n)) => n.to_string(),
        Json::Number(None) => "0.5".to_string(),
        Json::Text(s) => serde_json::to_string(s).unwrap(),
        Json::Array(items) => {
            let parts: Vec<String> = items.iter().map(serde_json_text).collect();
            format!("[{}]", parts.join(","))
        },
        Json::Object(members) => {
            let parts: Vec<String> = members
                .iter()
                .map(|(k, v)| format!("{}:{}", serde_json::to_string(k).unwrap(), serde_json_text(v)))
                .collect();
            format!("{{{}}}", parts.join(","))
        },
    }
}

fn state_with(member: &str) -> Option<HueLightState> {
    let text = format!(
        r#"{{"on": true, "alert": "none", "mode": "m", "reachable": true, {member}}}"#
    );
    HueLightState::from_json(&parse(&text).unwrap())
}

#[test]
fn optional_parts_of_the_state() {
    let bare = HueLightState {
        on: true,
        bri: None,
        hue: None,
        sat: None,
        ct: None,
        alert: "none".to_string(),
        colormode: None,
        mode: "m".to_string(),
        reachable: true,
    };
    assert_eq!(state_with(r#""other": 1"#), Some(HueLightState { ..bare_copy(&bare) }));
    assert_eq!(state_with(r#""bri": 0"#).unwrap().bri, Some(0));
    assert_eq!(state_with(r#""bri": 255"#).unwrap().bri, Some(255));
    assert_eq!(state_with(r#""bri": 256"#), None);
    assert_eq!(state_with(r#""bri": -1"#), None);
    assert_eq!(state_with(r#""bri": 1.5"#), None);
    assert_eq!(state_with(r#""bri": "1""#), None);
    assert_eq!(state_with(r#""bri": null"#).unwrap().bri, None);
    assert_eq!(state_with(r#""sat": 254"#).unwrap().sat, Some(254));
    assert_eq!(state_with(r#""sat": 300"#), None);
    assert_eq!(state_with(r#""hue": 65535"#).unwrap().hue, Some(65535));
    assert_eq!(state_with(r#""hue": 65536"#), None);
    assert_eq!(state_with(r#""ct": 500"#).unwrap().ct, Some(500));
    assert_eq!(state_with(r#""ct": true"#), None);
    assert_eq!(state_with(r#""colormode": "xy""#).unwrap().colormode, Some("xy".to_string()));
    assert_eq!(state_with(r#""colormode": 3"#), None);
}

fn bare_copy(state: &HueLightState) -> HueLightState {
    HueLightState {
        on: state.on,
        bri: state.bri,
        hue: state.hue,
        sat: state.sat,
        ct: state.ct,
        alert: state.alert.clone(),
        colormode: state.colormode.clone(),
        mode: state.mode.clone(),
        reachable: state.reachable,
    }
}

#[test]
fn required_parts_of_the_state() {
    let decode = |text: &str| HueLightState::from_json(&parse(text).unwrap());
    assert!(decode(r#"{"on": true, "alert": "a", "mode": "m", "reachable": false}"#).is_some());
    assert_eq!(decode(r#"{"alert": "a", "mode": "m", "reachable": false}"#), None);
    assert_eq!(decode(r#"{"on": true, "mode": "m", "reachable": false}"#), None);
    assert_eq!(decode(r#"{"on": true, "alert": "a", "reachable": false}"#), None);
    assert_eq!(decode(r#"{"on": true, "alert": "a", "mode": "m"}"#), None);
    assert_eq!(decode(r#"{"on": 1, "alert": "a", "mode": "m", "reachable": false}"#), None);
    assert_eq!(decode(r#"{"on": null, "alert": "a", "mode": "m", "reachable": false}"#), None);
    assert_eq!(decode(r#"[true, "a", "m", false]"#), None);
}

#[test]
fn control_capabilities_may_be_empty_but_must_be_an_object() {
    let decode = |text: &str| CapabilitiesControl::from_json(&parse(text).unwrap());
    assert_eq!(decode("{}"), Some(CapabilitiesControl { ct: None }));
    assert_eq!(decode(r#"{"ct": null}"#), Some(CapabilitiesControl { ct: None }));
    assert_eq!(
        decode(r#"{"ct": {"min": 1, "max": 2}}"#),
        Some(CapabilitiesControl { ct: Some(CapabilitiesControlCT { min: 1, max: 2 }) })
    );
    assert_eq!(decode(r#"{"ct": {"min": 1}}"#), None);
    assert_eq!(decode(r#"{"ct": 5}"#), None);
    assert_eq!(decode("[]"), None);
    assert_eq!(decode("null"), None);
    assert_eq!(decode("3"), None);
}

#[test]
fn read_lights_from_a_document() {
    let lamp_doc = parse(LAMP).unwrap();
    let plug_doc = parse(PLUG).unwrap();
    let doc = Json::Object(vec![("3".to_string(), lamp_doc), ("1".to_string(), plug_doc)]);
    let lights = read_lights(&doc).unwrap();
    assert_eq!(lights.len(), 2);
    assert_eq!(lights.get("3"), Some(&lamp()));
    assert_eq!(lights.get("1"), Some(&plug()));
    assert_eq!(
        read_lights(&Json::Array(Vec::new())).err(),
        Some(HueError::RequestError(RequestFailure::Body))
    );
    assert_eq!(read_light(&parse(PLUG).unwrap()), Ok(plug()));
    assert_eq!(read_light(&Json::Null), body_failure());
}

#[test]
fn a_number_is_there_once() {
    let lights = Lights::new()
        .insert("1".to_string(), lamp())
        .insert("2".to_string(), lamp())
        .insert("1".to_string(), plug());
    assert_eq!(lights.len(), 2);
    assert_eq!(lights.get("1"), Some(&plug()));
    assert_eq!(lights.get("2"), Some(&lamp()));
    assert_eq!(sorted(lights), vec![("1".to_string(), plug()), ("2".to_string(), lamp())]);
}

#[test]
fn a_number_listed_twice_counts_as_listed_last() {
    let doc = Json::Object(vec![
        ("1".to_string(), parse(LAMP).unwrap()),
        ("2".to_string(), parse(LAMP).unwrap()),
        ("1".to_string(), parse(PLUG).unwrap()),
    ]);
    let lights = read_lights(&doc).unwrap();
    assert_eq!(lights.len(), 2);
    assert_eq!(lights.get("1"), Some(&plug()));
    assert_eq!(lights.get("2"), Some(&lamp()));
}

#[test]
fn insert_puts_a_light_under_its_number() {
    let lights = Lights::new().insert("9".to_string(), plug());
    assert_eq!(lights.len(), 1);
    assert_eq!(lights.get("9"), Some(&plug()));
    assert_eq!(lights.get("90"), None);
    assert_eq!(lights.get(""), None);
}
