use vjoy_bridge::util::{get_cert_path, get_key_path, select_device_ips, IpAddress};

#[test]
fn selects_distinct_ipv4_addresses() {
    let addrs = vec![
        IpAddress::V4(127, 0, 0, 1),
        IpAddress::V4(192, 168, 1, 10),
        IpAddress::V6(0xfe80, 0, 0, 0, 1, 2, 3, 4),
        IpAddress::V4(0, 0, 0, 0),
        IpAddress::V4(224, 0, 0, 251),
        IpAddress::V4(239, 255, 255, 250),
        IpAddress::V4(10, 0, 0, 2),
        IpAddress::V4(192, 168, 1, 10),
        IpAddress::V4(240, 0, 0, 1),
        IpAddress::V4(0, 0, 0, 1),
    ];
    assert_eq!(
        select_device_ips(&addrs),
        vec![(192, 168, 1, 10), (10, 0, 0, 2), (240, 0, 0, 1), (0, 0, 0, 1)]
    );
    assert_eq!(select_device_ips(&vec![]), vec![]);
}

#[test]
fn certificate_paths() {
    assert_eq!(get_cert_path("/srv/app"), "/srv/app/certs/cert.pem");
    assert_eq!(get_key_path("/srv/app"), "/srv/app/certs/key.pem");
}
