use xnb_assets::strutil::parse_u32_str;
use xnb_assets::vfx::strip_malformed_reference;
use xnb_assets::{
    DecodeError, ParticleEmitter, RawProperty, SpreadType, VisualEffectAsset, VisualEffectKind,
    VisualEffectProperty, VisualEffectPropertyKeyframe,
};

/// Turn a raw property into the bit-pattern form; value text becomes an
/// IEEE single at this edge, outside the verified core.
fn property_bits(p: &RawProperty) -> Option<VisualEffectProperty> {
    match p {
        RawProperty::Constant(v) => Some(VisualEffectProperty::Constant(
            v.parse::<f32>().ok()?.to_bits(),
        )),
        RawProperty::Animated(ks) => {
            let mut out = Vec::new();
            for k in ks {
                out.push(VisualEffectPropertyKeyframe {
                    time: k.time,
                    value: k.value.parse::<f32>().ok()?.to_bits(),
                });
            }
            Some(VisualEffectProperty::Animated(out))
        }
    }
}

const EFFECT: &str = r#"<Effect type="Looping" duration="2.5" keyFramesPerSecond="30">
  <ContinuousEmitter name="smoke">
    <BlendMode value="Additive"/>
    <SpreadType value="cone"/>
    <Particle value="3"/>
    <ParticlesPerSecond value="12.5"/>
    <LifeTimeMax>
      <Key time="10" value="1.0"/>
      <Key time="0" value="0.0"/>
      <Key time="10" value="9.0"/>
    </LifeTimeMax>
    <ColorControlAlpha value="false"/>
    <Unknown whatever="ignored"/>
  </ContinuousEmitter>
</Effect>"#;

#[test]
fn effect_document_decodes() {
    let a = VisualEffectAsset::read_xml(EFFECT).unwrap();
    assert_eq!(a.kind, VisualEffectKind::Looping);
    assert_eq!(a.duration, "2.5");
    assert_eq!(a.keyframes_per_second, 30);
    assert_eq!(a.emitters.len(), 1);
    let ParticleEmitter::Continuous(em) = &a.emitters[0];
    assert_eq!(em.name, "smoke");
    assert!(em.additive_blend);
    assert_eq!(em.spread_type, SpreadType::Cone);
    assert_eq!(em.sprite, 3);
    assert!(em.hsv); // ColorControlAlpha false means the opposite sense
    assert!(!em.colorize);
    // required rate survived as raw text
    assert_eq!(em.particles_per_second, RawProperty::Constant("12.5".to_owned()));
    // defaults applied to absent properties
    assert_eq!(em.drag, RawProperty::Constant("0".to_owned()));
    assert_eq!(em.size_start_min, RawProperty::Constant("1".to_owned()));
    assert_eq!(
        em.rotation_ccw_chance,
        RawProperty::Constant("50".to_owned())
    );
    // keyframes sorted, duplicate time dropped keeping the first entry
    match &em.lifetime_max {
        RawProperty::Animated(ks) => {
            assert_eq!(ks.len(), 2);
            assert_eq!(ks[0].time, 0);
            assert_eq!(ks[1].time, 10);
            assert_eq!(ks[1].value, "1.0");
        }
        other => panic!("expected a keyframe track, got {:?}", other),
    }
    // the edge conversion turns raw text into bit patterns
    let p = property_bits(&em.particles_per_second).unwrap();
    assert_eq!(p, VisualEffectProperty::Constant(12.5f32.to_bits()));
}

#[test]
fn effect_requires_blend_mode() {
    let text = r#"<Effect type="Single" duration="1" keyFramesPerSecond="1">
      <ContinuousEmitter name="x">
        <SpreadType value="arc"/>
        <Particle value="0"/>
        <ParticlesPerSecond value="1"/>
      </ContinuousEmitter>
    </Effect>"#;
    assert_eq!(
        VisualEffectAsset::read_xml(text).unwrap_err(),
        DecodeError::MissingXmlChild
    );
}

#[test]
fn effect_rejects_unknown_kind() {
    let text = r#"<Effect type="Sometimes" duration="1" keyFramesPerSecond="1"/>"#;
    assert_eq!(
        VisualEffectAsset::read_xml(text).unwrap_err(),
        DecodeError::InvalidXmlValue
    );
}

#[test]
fn entity_repair_is_one_shot() {
    let broken = r#"<Effect type="Single" duration="1" keyFramesPerSecond="1">&nbsp bad</Effect>"#;
    // the stripped text parses, and the dialect then accepts the root
    let a = VisualEffectAsset::read_xml(broken).unwrap();
    assert_eq!(a.kind, VisualEffectKind::Single);
    assert_eq!(strip_malformed_reference("a&xx;b"), "ab");
    assert_eq!(strip_malformed_reference("a&xx b"), "ab");
    assert_eq!(strip_malformed_reference("a&xx"), "a");
}

#[test]
fn integer_attributes_parse_exactly() {
    assert_eq!(parse_u32_str("30"), Some(30));
    assert_eq!(parse_u32_str("+7"), Some(7));
    assert_eq!(parse_u32_str(""), None);
    assert_eq!(parse_u32_str("12x"), None);
    assert_eq!(parse_u32_str("4294967296"), None);
}

#[test]
fn non_numeric_duration_is_rejected() {
    let text = r#"<Effect type="Single" duration="abc" keyFramesPerSecond="1"/>"#;
    assert_eq!(
        VisualEffectAsset::read_xml(text).unwrap_err(),
        DecodeError::InvalidXmlValue
    );
}

#[test]
fn non_numeric_property_values_are_rejected() {
    let constant = r#"<Effect type="Single" duration="1" keyFramesPerSecond="1">
      <ContinuousEmitter name="x">
        <BlendMode value="alpha"/>
        <SpreadType value="arc"/>
        <Particle value="0"/>
        <ParticlesPerSecond value="fast"/>
      </ContinuousEmitter>
    </Effect>"#;
    assert_eq!(
        VisualEffectAsset::read_xml(constant).unwrap_err(),
        DecodeError::InvalidXmlValue
    );
    let keyed = r#"<Effect type="Single" duration="1" keyFramesPerSecond="1">
      <ContinuousEmitter name="x">
        <BlendMode value="alpha"/>
        <SpreadType value="arc"/>
        <Particle value="0"/>
        <ParticlesPerSecond>
          <Key time="0" value="not-a-number"/>
        </ParticlesPerSecond>
      </ContinuousEmitter>
    </Effect>"#;
    assert_eq!(
        VisualEffectAsset::read_xml(keyed).unwrap_err(),
        DecodeError::InvalidXmlValue
    );
}

/// The acceptance grammar matches what the standard float parse accepts.
#[test]
fn numeric_text_grammar() {
    let accepted = [
        "0", "1", "50", "12.5", "3.", ".5", "-1.5e3", "+2E-7", "1e9", "inf", "-Infinity", "NaN",
        "1e999",
    ];
    let rejected = ["", "+", "-", ".", "abc", "1e", "1e+", "1.2.3", "infx", "0x10", "1 "];
    for t in accepted {
        assert!(xnb_assets::strutil::is_numeric_str(t), "should accept {t}");
        assert!(t.parse::<f32>().is_ok(), "std should accept {t}");
    }
    for t in rejected {
        assert!(!xnb_assets::strutil::is_numeric_str(t), "should reject {t}");
        assert!(t.parse::<f32>().is_err(), "std should reject {t}");
    }
}
