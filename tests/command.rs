use philipshue::hue::CommandLight;

fn keys_of(text: &str) -> Vec<String> {
    let v: serde_json::Value = serde_json::from_str(text).unwrap();
    v.as_object().unwrap().keys().cloned().collect()
}

#[test]
fn empty_command_encodes_to_empty_object() {
    assert_eq!(CommandLight::default().encode(), "{}");
}

#[test]
fn encode_sends_only_set_fields() {
    let c = CommandLight::default().with_bri(254);
    assert_eq!(c.encode(), "{\"bri\":254}");
    let c = CommandLight::default().on().with_hue(65535).with_ct(153);
    assert_eq!(c.encode(), "{\"on\":true,\"hue\":65535,\"ct\":153}");
}

#[test]
fn explicit_off_is_sent() {
    let c = CommandLight::default().off();
    assert_eq!(c.encode(), "{\"on\":false}");
}

#[test]
fn encode_all_fields() {
    let c = CommandLight::default().on().with_bri(0).with_hue(1000).with_sat(255).with_ct(500);
    assert_eq!(c.encode(), "{\"on\":true,\"bri\":0,\"hue\":1000,\"sat\":255,\"ct\":500}");
}

#[test]
fn encode_round_trips_through_json() {
    let samples = vec![
        CommandLight::default(),
        CommandLight::default().off(),
        CommandLight::default().with_sat(7),
        CommandLight::default().on().with_bri(10).with_sat(20),
        CommandLight::default().with_hue(0).with_ct(65535),
        CommandLight::default().off().with_bri(255).with_hue(12345).with_sat(0).with_ct(2),
    ];
    for c in samples {
        let text = c.encode();
        let v: serde_json::Value = serde_json::from_str(&text).unwrap();
        let o = v.as_object().unwrap();
        let back = CommandLight {
            on: o.get("on").map(|x| x.as_bool().unwrap()),
            bri: o.get("bri").map(|x| x.as_u64().unwrap() as u8),
            hue: o.get("hue").map(|x| x.as_u64().unwrap() as u16),
            sat: o.get("sat").map(|x| x.as_u64().unwrap() as u8),
            ct: o.get("ct").map(|x| x.as_u64().unwrap() as u16),
        };
        assert_eq!(back, c);
        let mut expected = Vec::new();
        if c.on.is_some() { expected.push("on"); }
        if c.bri.is_some() { expected.push("bri"); }
        if c.hue.is_some() { expected.push("hue"); }
        if c.sat.is_some() { expected.push("sat"); }
        if c.ct.is_some() { expected.push("ct"); }
        let mut keys = keys_of(&text);
        keys.sort();
        expected.sort();
        assert_eq!(keys, expected);
    }
}

#[test]
fn builders_set_one_field() {
    let c = CommandLight::default().with_bri(3);
    assert_eq!(c, CommandLight { on: None, bri: Some(3), hue: None, sat: None, ct: None });
    let c = c.on().off();
    assert_eq!(c.on, Some(false));
    assert_eq!(c.bri, Some(3));
}
