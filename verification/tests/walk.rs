use walkley_usb::os_usb::descriptor::{EndpointDescriptor, Interface, InterfaceDescriptor};
use walkley_usb::os_usb::{dev_eps_iterate, dev_if_descs_iterate, dev_ifs_iterate};

fn endpoint(address: u8, attributes: u8) -> EndpointDescriptor {
    EndpointDescriptor { length: 7, descriptor_type: 5, endpoint_address: address, attributes }
}

fn setting(endpoints: Vec<EndpointDescriptor>) -> InterfaceDescriptor {
    InterfaceDescriptor { descriptor_type: 4, num_endpoints: endpoints.len() as u8, endpoints }
}

fn interface(settings: Vec<InterfaceDescriptor>) -> Interface {
    Interface { num_altsetting: settings.len() as i32, altsetting: settings }
}

#[test]
fn no_endpoints_no_lines() {
    let mut out: Vec<String> = Vec::new();
    dev_eps_iterate(&[], 0, &mut out);
    assert!(out.is_empty());
}

#[test]
fn endpoint_lines_are_exact() {
    let eps = [endpoint(0x81, 2), endpoint(0x02, 3)];
    let mut out: Vec<String> = Vec::new();
    dev_eps_iterate(&eps, 2, &mut out);
    assert_eq!(
        out,
        vec![
            String::from("---->ENDPOINT[0], addr number: 1, direction: IN, xfer type: BULK"),
            String::from("---->ENDPOINT[1], addr number: 2, direction: OUT, xfer type: INTERRUPT"),
        ]
    );
}

#[test]
fn endpoint_line_masks_its_fields() {
    let eps = [EndpointDescriptor {
        length: 7,
        descriptor_type: 0x77,
        endpoint_address: 0xff,
        attributes: 0xfd,
    }];
    let mut out: Vec<String> = Vec::new();
    dev_eps_iterate(&eps, 1, &mut out);
    assert_eq!(
        out,
        vec![String::from(
            "---->INVALID[0], addr number: 15, direction: IN, xfer type: ISOCHRONOUS"
        )]
    );
}

#[test]
fn one_line_per_endpoint_in_ascending_order() {
    for n in [0usize, 1, 2, 10, 11, 100, 255] {
        let eps: Vec<EndpointDescriptor> = (0..n).map(|i| endpoint(i as u8, 0)).collect();
        let mut out: Vec<String> = Vec::new();
        dev_eps_iterate(&eps, n as u8, &mut out);
        assert_eq!(out.len(), n);
        for (i, line) in out.iter().enumerate() {
            assert!(line.starts_with(&format!("---->ENDPOINT[{}], ", i)));
        }
    }
}

#[test]
fn endpoint_walk_stops_at_the_count() {
    let eps = [endpoint(1, 0), endpoint(2, 1), endpoint(3, 2)];
    let mut out: Vec<String> = vec![String::from("before")];
    dev_eps_iterate(&eps, 2, &mut out);
    assert_eq!(
        out,
        vec![
            String::from("before"),
            String::from("---->ENDPOINT[0], addr number: 1, direction: OUT, xfer type: CONTROL"),
            String::from(
                "---->ENDPOINT[1], addr number: 2, direction: OUT, xfer type: ISOCHRONOUS"
            ),
        ]
    );
}

#[test]
fn alternate_settings_with_their_endpoints() {
    let descs = [setting(vec![endpoint(0x81, 2)]), setting(vec![]), setting(vec![endpoint(0x02, 3)])];
    let mut out: Vec<String> = Vec::new();
    dev_if_descs_iterate(&descs, 3, &mut out);
    assert_eq!(
        out,
        vec![
            String::from("--->INTERFACE[0], number of endpoints: 1"),
            String::from("---->ENDPOINT[0], addr number: 1, direction: IN, xfer type: BULK"),
            String::from("--->INTERFACE[1], number of endpoints: 0"),
            String::from("--->INTERFACE[2], number of endpoints: 1"),
            String::from("---->ENDPOINT[0], addr number: 2, direction: OUT, xfer type: INTERRUPT"),
        ]
    );
}

#[test]
fn no_alternate_settings_no_lines() {
    let mut out: Vec<String> = Vec::new();
    dev_if_descs_iterate(&[], 0, &mut out);
    assert!(out.is_empty());
    dev_if_descs_iterate(&[], -1, &mut out);
    assert!(out.is_empty());
    dev_if_descs_iterate(&[setting(vec![])], i32::MIN, &mut out);
    assert!(out.is_empty());
}

#[test]
fn interfaces_with_their_settings() {
    let ifs = [
        interface(vec![setting(vec![endpoint(0x81, 2), endpoint(0x02, 3)])]),
        interface(vec![]),
    ];
    let mut out: Vec<String> = Vec::new();
    dev_ifs_iterate(&ifs, 2, &mut out);
    assert_eq!(
        out,
        vec![
            String::from("-->interface[0], number of descriptors: 1"),
            String::from("--->INTERFACE[0], number of endpoints: 2"),
            String::from("---->ENDPOINT[0], addr number: 1, direction: IN, xfer type: BULK"),
            String::from("---->ENDPOINT[1], addr number: 2, direction: OUT, xfer type: INTERRUPT"),
            String::from("-->interface[1], number of descriptors: 0"),
        ]
    );
}

#[test]
fn negative_setting_count_is_reported_and_not_walked() {
    let ifs = [Interface { num_altsetting: -3, altsetting: vec![] }];
    let mut out: Vec<String> = Vec::new();
    dev_ifs_iterate(&ifs, 1, &mut out);
    assert_eq!(out, vec![String::from("-->interface[0], number of descriptors: -3")]);
}

#[test]
fn no_interfaces_no_lines() {
    let mut out: Vec<String> = Vec::new();
    dev_ifs_iterate(&[], 0, &mut out);
    assert!(out.is_empty());
}

#[test]
fn well_formedness_is_checked() {
    let good = setting(vec![endpoint(1, 0)]);
    assert!(good.is_well_formed());
    let short = InterfaceDescriptor { descriptor_type: 4, num_endpoints: 2, endpoints: vec![endpoint(1, 0)] };
    assert!(!short.is_well_formed());
    assert!(interface(vec![good.clone()]).is_well_formed());
    assert!(!interface(vec![short.clone()]).is_well_formed());
    assert!(!Interface { num_altsetting: 2, altsetting: vec![good.clone()] }.is_well_formed());
    assert!(Interface { num_altsetting: -1, altsetting: vec![] }.is_well_formed());
    assert!(!Interface { num_altsetting: -1, altsetting: vec![good] }.is_well_formed());
}
