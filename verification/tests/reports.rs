use philipshue::light::{
    Capabilities, CapabilitiesControl, CapabilitiesControlCT, CapabilitiesStreaming, HueLight,
    HueLightConfig, HueLightSoftwareUpdate, HueLightState,
};
use philipshue::text::{bool_str, decimal_string, push_decimal, push_line, push_number_line};
use philipshue::{ApiError, HueError, RequestFailure};

fn state() -> HueLightState {
    HueLightState {
        on: true,
        bri: Some(200),
        hue: Some(8402),
        sat: Some(140),
        ct: Some(366),
        alert: "select".to_string(),
        colormode: Some("ct".to_string()),
        mode: "homeautomation".to_string(),
        reachable: false,
    }
}

fn capabilities(ct: Option<CapabilitiesControlCT>) -> Capabilities {
    Capabilities {
        certified: true,
        control: CapabilitiesControl { ct },
        streaming: CapabilitiesStreaming { renderer: true, proxy: false },
    }
}

#[test]
fn decimal_notation() {
    for n in [0u64, 1, 9, 10, 11, 99, 100, 101, 254, 443, 1000, 65535, 65536, 4294967296] {
        assert_eq!(decimal_string(n), n.to_string());
    }
    assert_eq!(decimal_string(u64::MAX), "18446744073709551615");
    let mut out = "n=".to_string();
    push_decimal(&mut out, 8080);
    assert_eq!(out, "n=8080");
}

#[test]
fn booleans_spelled_out() {
    assert_eq!(bool_str(true), "true");
    assert_eq!(bool_str(false), "false");
}

#[test]
fn lines() {
    let mut out = String::new();
    push_line(&mut out, "Name: ", "Lamp");
    push_number_line(&mut out, "Brightness: ", 7);
    push_line(&mut out, "", "");
    assert_eq!(out, "Name: Lamp\nBrightness: 7\n\n");
}

#[test]
fn api_error_text() {
    let error = ApiError {
        error_type: 101,
        address: String::new(),
        description: "link button not pressed".to_string(),
    };
    assert_eq!(error.to_text(), "error_type = 101, description = link button not pressed");
    let error = ApiError {
        error_type: 7,
        address: "/lights/1/state/bri".to_string(),
        description: "invalid value".to_string(),
    };
    assert_eq!(
        error.to_text(),
        "error_type = 7, address = /lights/1/state/bri, description = invalid value"
    );
}

#[test]
fn hue_error_text() {
    assert_eq!(HueError::NoBridgeFound.to_text(), "no philipshue bridge could be found");
    assert_eq!(HueError::NoData.to_text(), "the server didn't reply with success or error");
    assert_eq!(
        HueError::ApiError(ApiError {
            error_type: 1,
            address: "/".to_string(),
            description: "unauthorized user".to_string(),
        })
        .to_text(),
        "the philipshue bridge replied with an error: error_type = 1, address = /, description = unauthorized user"
    );
    assert_eq!(
        HueError::RequestError(RequestFailure::Status(404)).to_text(),
        "error while doing the request to the philipshue bridge: unexpected HTTP status 404"
    );
    assert_eq!(
        HueError::RequestError(RequestFailure::Body).to_text(),
        "error while doing the request to the philipshue bridge: the response body is not the expected JSON"
    );
    assert_eq!(
        HueError::RequestError(RequestFailure::Transport("connection refused".to_string()))
            .to_text(),
        "error while doing the request to the philipshue bridge: connection refused"
    );
}

#[test]
fn request_failure_text() {
    assert_eq!(RequestFailure::Status(0).to_text(), "unexpected HTTP status 0");
    assert_eq!(RequestFailure::Status(503).to_text(), "unexpected HTTP status 503");
    assert_eq!(RequestFailure::Body.to_text(), "the response body is not the expected JSON");
    assert_eq!(RequestFailure::Transport("t".to_string()).to_text(), "t");
}

#[test]
fn state_report_full() {
    assert_eq!(
        state().to_text(),
        "On: true\nBrightness: 200\nHue: 8402\nSaturation: 140\nColor temperature: 366\n\
         Alert: select\nColormode: ct\nMode: homeautomation\nReachable: false\n"
    );
}

#[test]
fn state_report_leaves_out_what_is_missing() {
    let bare = HueLightState {
        bri: None,
        hue: None,
        sat: None,
        ct: None,
        colormode: None,
        on: false,
        ..state()
    };
    assert_eq!(bare.to_text(), "On: false\nAlert: select\nMode: homeautomation\nReachable: false\n");
    let some = HueLightState { hue: None, ct: None, ..state() };
    assert_eq!(
        some.to_text(),
        "On: true\nBrightness: 200\nSaturation: 140\nAlert: select\nColormode: ct\n\
         Mode: homeautomation\nReachable: false\n"
    );
}

#[test]
fn software_update_and_config_reports() {
    let update = HueLightSoftwareUpdate {
        state: "noupdates".to_string(),
        last_install: "2021-03-10T13:03:28".to_string(),
    };
    assert_eq!(update.to_text(), "State: noupdates\nLast install: 2021-03-10T13:03:28\n");
    let config = HueLightConfig {
        archetype: "sultanbulb".to_string(),
        function: "mixed".to_string(),
        direction: "omnidirectional".to_string(),
    };
    assert_eq!(
        config.to_text(),
        "Archetype: sultanbulb\nFunction: mixed\nDirection: omnidirectional\n"
    );
}

#[test]
fn capabilities_reports() {
    let ct = CapabilitiesControlCT { min: 153, max: 500 };
    assert_eq!(
        CapabilitiesControl { ct: Some(ct) }.to_text(),
        "Color temperature min: 153, max: 500\n"
    );
    assert_eq!(CapabilitiesControl { ct: None }.to_text(), "");
    assert_eq!(
        CapabilitiesStreaming { renderer: false, proxy: true }.to_text(),
        "Renderer: false\nProxy: true\n"
    );
    assert_eq!(
        capabilities(Some(ct)).to_text(),
        "Certified: true\nControl capabilities:\nColor temperature min: 153, max: 500\n\n\
         Streaming capabilities:\nRenderer: true\nProxy: false\n"
    );
    assert_eq!(
        capabilities(None).to_text(),
        "Certified: true\nStreaming capabilities:\nRenderer: true\nProxy: false\n"
    );
}

#[test]
fn light_report() {
    let light = HueLight {
        state: state(),
        _type: "Extended color light".to_string(),
        name: "Lamp".to_string(),
        model_id: "LCT015".to_string(),
        manufacturer_name: "Signify".to_string(),
        product_name: "Hue color lamp".to_string(),
        software_update: HueLightSoftwareUpdate {
            state: "noupdates".to_string(),
            last_install: "never".to_string(),
        },
        unique_id: "00:17".to_string(),
        software_version: "1.88.1".to_string(),
        capabilities: capabilities(None),
        config: HueLightConfig {
            archetype: "a".to_string(),
            function: "f".to_string(),
            direction: "d".to_string(),
        },
    };
    assert_eq!(
        light.to_text(),
        "Name: Lamp\nType: Extended color light\nModel id: LCT015\nManufacturer: Signify\n\
         Product: Hue color lamp\nUnique id: 00:17\nSoftware version: 1.88.1\n\
         Software update:\nState: noupdates\nLast install: never\n\n\
         Config:\nArchetype: a\nFunction: f\nDirection: d\n\n\
         --- Light state: --- \n\
         On: true\nBrightness: 200\nHue: 8402\nSaturation: 140\nColor temperature: 366\n\
         Alert: select\nColormode: ct\nMode: homeautomation\nReachable: false\n"
    );
}
