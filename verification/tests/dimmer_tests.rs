use std::rc::Rc;

use sinuous::device::patch;
use sinuous::device::Device;
use sinuous::device::DeviceBranch;
use sinuous::device::DeviceTree;
use sinuous::dmx::DmxAddressOffset;
use sinuous::dmx::DmxMap;
use sinuous::dmx::DmxUniverse;
use sinuous::effect::EffectSubsubtype;
use sinuous::effect::EffectSubtype;
use sinuous::effect::EffectType;
use sinuous::profile::Attribute;
use sinuous::profile::AttributeValue;
use sinuous::profile::ChannelAlloc;
use sinuous::profile::Profile;
use sinuous::profile::ProfileGraph;
use sinuous::render::limit_unipolar_unit_to_u8;
use sinuous::render::DmxAttributeRenderer;
use sinuous::topo::continuous_euclidian_unipolar;

fn to_millionths(n: f64) -> i64 {
    (n * 1_000_000.0).round() as i64
}

fn write_dimmer_val(show: &mut DeviceBranch, dim: &Device, v: f64) {
    match &mut show.children[dim.root] {
        DeviceTree::DeviceTreeEndpoint(e) => e.set_val(AttributeValue::Continuous(to_millionths(v))),
        _ => (),
    }
}

fn create_dimmer() {
    let p = Rc::new(Profile {
        name: "Dimmer".to_string(),
        nickname: "Dim".to_string(),
        manufacturer: "Generic".to_string(),
        author: "Generic".to_string(),
        date: "June 7, 2014".to_string(),
        version: 0,
        chan_alloc: ChannelAlloc::DmxChannelCount(1),
        root: Rc::new(ProfileGraph::ProfileGraphAttribute(Attribute {
            name: "Dimmer".to_string(),
            nickname: "Dim".to_string(),
            effect: (EffectType::Dimmer, EffectSubtype::ColorspaceI, EffectSubsubtype::Value),
            topo: continuous_euclidian_unipolar(),
            default: Some(AttributeValue::Continuous(0)),
            dmx: Some(DmxMap {
                offset: DmxAddressOffset::DmxAddressOffsetSingle(0),
                renderer: DmxAttributeRenderer::DmxFloatRenderer,
            }),
        })),
    });

    let mut show = DeviceBranch { profile_branch: None, children: Vec::new() };
    let mut univ = DmxUniverse::new(0, "U1".to_string());

    let mut devices = Vec::new();
    let device_ct: usize = 512;
    for i in 0..device_ct {
        devices.push(patch(&p, &mut show, i, &univ).unwrap());
    }

    let trial_ct = 100000;
    let mut write_ct: usize = 0;
    for n in 0..trial_ct {
        let v = (n as f64) / (trial_ct - 1) as f64;
        let mut i: usize = 0;
        for d in devices.iter() {
            write_dimmer_val(&mut show, d, v);
            assert!(d.render(&show, &mut univ).is_ok());
            let rendered_val = univ.frame[i];
            assert!(rendered_val == limit_unipolar_unit_to_u8(to_millionths(v)));
            i = i + 1;
        }
        write_ct = write_ct + i
    }
    assert!(write_ct == 512 * 100000);
}

#[test]
fn test_dimmer() {
    create_dimmer();
}
