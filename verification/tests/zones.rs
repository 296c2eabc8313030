use gantt_plan::background::{get_background_zones, BackgroundZoneKind, amplifier_zone, RX_ZONE_HEIGHT};
use gantt_plan::color::Rgba;
use gantt_plan::task::{amplifiers, bands, Amplifier};
use gantt_plan::utils::{MAX_FREQ, MIN_FREQ};

#[test]
fn amplifier_colours() {
    let expect = [
        (Amplifier::A20_500, (0, 187, 221)),
        (Amplifier::A500_1000, (255, 163, 0)),
        (Amplifier::A960_1215, (124, 127, 171)),
        (Amplifier::A1000_2500, (0, 171, 142)),
        (Amplifier::A2400_6000, (174, 37, 115)),
    ];
    for (a, (r, g, b)) in expect {
        assert_eq!(a.color(), Rgba { r, g, b, a: 255 });
    }
}

#[test]
fn amplifier_colours_are_distinct() {
    let amps = amplifiers();
    for i in 0..amps.len() {
        for j in 0..amps.len() {
            if i != j {
                assert_ne!(amps[i].color(), amps[j].color());
            }
        }
    }
}

#[test]
fn colour_constructors() {
    assert_eq!(Rgba::from_rgb(1, 2, 3), Rgba { r: 1, g: 2, b: 3, a: 255 });
    assert_eq!(Rgba::from_gray(100), Rgba { r: 100, g: 100, b: 100, a: 255 });
    assert_eq!(Rgba::transparent(), Rgba { r: 0, g: 0, b: 0, a: 0 });
    assert_eq!(Rgba::from_rgba_unmultiplied(10, 20, 30, 255), Rgba { r: 10, g: 20, b: 30, a: 255 });
    assert_eq!(Rgba::from_rgba_unmultiplied(10, 20, 30, 0), Rgba { r: 0, g: 0, b: 0, a: 0 });
    assert_eq!(Rgba::from_rgba_unmultiplied(200, 200, 200, 100), Rgba { r: 78, g: 78, b: 78, a: 100 });
}

#[test]
fn bands_table() {
    let b = bands();
    assert_eq!(
        b,
        vec![
            (Amplifier::A20_500, 20, 500),
            (Amplifier::A500_1000, 500, 1000),
            (Amplifier::A960_1215, 960, 1215),
            (Amplifier::A1000_2500, 1000, 2500),
            (Amplifier::A2400_6000, 2400, 6000),
        ]
    );
}

#[test]
fn labels() {
    assert_eq!(Amplifier::A20_500.label(), "Amplifier 20-500MHz");
    assert_eq!(Amplifier::A2400_6000.label(), "Amplifier 2400-6000MHz");
}

#[test]
fn zone_names() {
    assert_eq!(BackgroundZoneKind::RxZone.name(), "Zone de réception");
    assert_eq!(BackgroundZoneKind::Amplifier("Amplifier 20-500MHz").name(), "Amplifier 20-500MHz");
    let zones = get_background_zones();
    assert_eq!(zones[0].kind.name(), "Zone de réception");
    assert_eq!(zones[3].kind.name(), "Amplifier 960-1215MHz");
}

#[test]
fn reception_zone_layout() {
    let zones = get_background_zones();
    assert_eq!(zones.len(), 6);
    let rx = &zones[0];
    assert_eq!(rx.kind, BackgroundZoneKind::RxZone);
    assert_eq!(rx.area(), vec![(MIN_FREQ, 0), (MAX_FREQ, 0), (MAX_FREQ, RX_ZONE_HEIGHT), (MIN_FREQ, RX_ZONE_HEIGHT)]);
    assert_eq!(rx.area(), vec![(20, 0), (6000, 0), (6000, 100), (20, 100)]);
    assert_eq!(rx.stroke.width_tenths, 1);
    assert_eq!(rx.stroke.color, Rgba { r: 100, g: 100, b: 100, a: 255 });
    assert_eq!(rx.fill, Rgba { r: 78, g: 78, b: 78, a: 100 });
    assert!(rx.label.is_none());
}

#[test]
fn amplifier_zone_layouts() {
    let zones = get_background_zones();
    let amps = amplifiers();
    for (i, a) in amps.iter().enumerate() {
        let z = &zones[i + 1];
        let (lo, hi) = a.freq_range();
        assert_eq!(z.kind, BackgroundZoneKind::Amplifier(a.label()));
        assert_eq!((z.freq_start, z.freq_end), (lo, hi));
        assert_eq!(z.stroke.width_tenths, 10);
        assert_eq!(z.stroke.color, a.color());
        assert_eq!(z.fill, Rgba::transparent());
        let label = z.label.as_ref().unwrap();
        assert_eq!(label.text, a.label().replace(' ', "\n"));
        assert_eq!(label.x2, lo + hi);
        assert_eq!(label.color, a.color());
    }
    let tall = &zones[3];
    assert_eq!(tall.height, 1125);
    assert_eq!(tall.label.as_ref().unwrap().y, 1150);
    let z = &zones[1];
    assert_eq!(z.height, 1100);
    assert_eq!(z.area(), vec![(20, 0), (500, 0), (500, 1100), (20, 1100)]);
    let l = z.label.as_ref().unwrap();
    assert_eq!(l.text, "Amplifier\n20-500MHz");
    assert_eq!(l.x2, 520);
    assert_eq!(l.y, 1050);
}

#[test]
fn zones_match_zoom_bands() {
    let zones = get_background_zones();
    let b = bands();
    for i in 0..b.len() {
        assert_eq!((zones[i + 1].freq_start, zones[i + 1].freq_end), (b[i].1, b[i].2));
        assert!(MIN_FREQ <= b[i].1 && b[i].1 < b[i].2 && b[i].2 <= MAX_FREQ);
        assert!(zones[i + 1].height > RX_ZONE_HEIGHT);
    }
}

#[test]
fn single_amplifier_zone() {
    let z = amplifier_zone(Amplifier::A1000_2500);
    assert_eq!(z.kind.name(), "Amplifier 1000-2500MHz");
    assert_eq!(z.label.unwrap().text, "Amplifier\n1000-2500MHz");
}

#[test]
fn premultiplied_rounding() {
    assert_eq!(Rgba::from_rgba_unmultiplied(255, 128, 1, 128), Rgba { r: 128, g: 64, b: 1, a: 128 });
    assert_eq!(Rgba::from_rgba_unmultiplied(1, 2, 3, 1), Rgba { r: 0, g: 0, b: 0, a: 1 });
}
