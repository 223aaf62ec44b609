use sorahk::config::HidDeviceBaseline;
use sorahk::devices::{
    activated_devices, baseline_device_of, device_id, forget_device_baselines,
    preference_device_of, record_baseline,
};

fn baseline(id: &str) -> HidDeviceBaseline {
    HidDeviceBaseline {
        device_id: id.to_string(),
        baseline_data: vec![0, 255, 127],
    }
}

#[test]
fn device_id_matches_format() {
    assert_eq!(device_id(0x045E, 0x028E, Some("1234567")), "045E:028E:1234567");
    assert_eq!(device_id(0x045E, 0x028E, None), "045E:028E");
    assert_eq!(device_id(0xA, 0xFFFF, None), format!("{:04X}:{:04X}", 0xAu16, 0xFFFFu16));
    assert_eq!(device_id(0, 0, Some("")), "0000:0000:");
}

#[test]
fn device_id_reads_back() {
    for (vid, pid) in [(0u16, 0u16), (0x045E, 0x028E), (0xFFFF, 0x1), (0x1234, 0xABCD)] {
        assert_eq!(baseline_device_of(&device_id(vid, pid, None)), Some((vid, pid)));
        assert_eq!(
            baseline_device_of(&device_id(vid, pid, Some("SN:42"))),
            Some((vid, pid))
        );
        assert_eq!(preference_device_of(&device_id(vid, pid, None)), Some((vid, pid)));
    }
}

#[test]
fn device_ids_that_do_not_read() {
    assert_eq!(baseline_device_of("045E"), None);
    assert_eq!(baseline_device_of("zz:028E"), None);
    assert_eq!(baseline_device_of("045E:10000"), None);
    assert_eq!(baseline_device_of("045e:028e"), Some((0x045E, 0x028E)));
    assert_eq!(preference_device_of("045E:028E:SN"), None);
    assert_eq!(preference_device_of(":"), None);
}

#[test]
fn record_baseline_skips_known_devices() {
    let mut baselines = vec![baseline("045E:028E")];
    assert!(!record_baseline(&mut baselines, "045E:028E".to_string(), vec![1]));
    assert_eq!(baselines.len(), 1);
    assert_eq!(baselines[0].baseline_data, vec![0, 255, 127]);
    assert!(record_baseline(&mut baselines, "046D:C21D:SN".to_string(), vec![9, 8]));
    assert_eq!(baselines.len(), 2);
    assert_eq!(baselines[1].device_id, "046D:C21D:SN");
    assert_eq!(baselines[1].baseline_data, vec![9, 8]);
}

#[test]
fn forget_device_drops_its_baselines_only() {
    let mut baselines = vec![
        baseline("045E:028E:A"),
        baseline("046D:C21D"),
        baseline("045E:028E"),
        baseline("045E:028F"),
    ];
    forget_device_baselines(&mut baselines, 0x045E, 0x028E);
    let ids: Vec<&str> = baselines.iter().map(|b| b.device_id.as_str()).collect();
    assert_eq!(ids, vec!["046D:C21D", "045E:028F"]);
}

#[test]
fn activated_devices_are_listed_once() {
    let baselines = vec![
        baseline("045E:028E:A"),
        baseline("045E:028E:B"),
        baseline("bad"),
        baseline("046D:C21D"),
    ];
    assert_eq!(activated_devices(&baselines), vec![(0x045E, 0x028E), (0x046D, 0xC21D)]);
    assert!(activated_devices(&Vec::new()).is_empty());
}
