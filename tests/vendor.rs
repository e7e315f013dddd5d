use blinkscan::{MacAddress, Vendor};

const TABLE: &str = "Registry,Assignment,Organization Name,Organization Address
MA-L,002272,American Micro-Fuel Device Corp.,2181 Buchanan Loop Ferndale WA US 98248
MA-L,405582,Nokia,Karakaari 7 Espoo FI 02610
MA-L,010101,SomeCorp,1 Some Street Somewhere US 00000
MA-L,405582,Nokia Second Row,Elsewhere FI 00000
MA-L,CC9DA2,Eltex Enterprise Ltd.,\"Okruzhnaya st. 29v Novosibirsk RU 630020\"
";

fn vendor() -> Vendor {
    Vendor::new(TABLE.as_bytes())
}

#[test]
fn should_create_vendor_resolver() {
    let vendor = vendor();

    assert_eq!(vendor.has_vendor_db(), true);
}

#[test]
fn should_handle_unresolved_database() {
    let vendor = Vendor::unavailable();

    assert_eq!(vendor.has_vendor_db(), false);
}

#[test]
fn should_find_specific_mac_vendor() {
    let vendor = vendor();
    let mac = MacAddress::new(0x40, 0x55, 0x82, 0xc3, 0xe5, 0x5b);

    assert_eq!(vendor.search_by_mac(&mac), Some("Nokia".to_string()));
}

#[test]
fn should_find_first_mac_vendor() {
    let vendor = vendor();
    let mac = MacAddress::new(0x00, 0x22, 0x72, 0xd7, 0xb5, 0x23);

    assert_eq!(vendor.search_by_mac(&mac), Some("American Micro-Fuel Device Corp.".to_string()));
}

#[test]
fn should_find_last_mac_vendor() {
    let vendor = vendor();
    let mac = MacAddress::new(0xcc, 0x9d, 0xa2, 0x14, 0x2e, 0x6f);

    assert_eq!(vendor.search_by_mac(&mac), Some("Eltex Enterprise Ltd.".to_string()));
}

#[test]
fn should_handle_unknown_mac_vendor() {
    let vendor = vendor();
    let mac = MacAddress::new(0xbb, 0xbb, 0xbb, 0xd2, 0xf5, 0xb6);

    assert_eq!(vendor.search_by_mac(&mac), None);
}

#[test]
fn should_pad_correctly_with_zeroes() {
    let vendor = vendor();
    let mac = MacAddress::new(0x01, 0x01, 0x01, 0x67, 0xb2, 0x1d);

    assert_eq!(vendor.search_by_mac(&mac), Some("SomeCorp".to_string()));
}

#[test]
fn repeated_lookups_agree() {
    let vendor = vendor();
    let mac = MacAddress::new(0xcc, 0x9d, 0xa2, 0x00, 0x00, 0x01);
    let first = vendor.search_by_mac(&mac);
    let second = vendor.search_by_mac(&mac);
    assert_eq!(first, second);
    assert_eq!(second, Some("Eltex Enterprise Ltd.".to_string()));
}

#[test]
fn unavailable_table_resolves_nothing() {
    let vendor = Vendor::unavailable();
    let mac = MacAddress::new(0x40, 0x55, 0x82, 0xc3, 0xe5, 0x5b);
    assert_eq!(vendor.search_by_mac(&mac), None);
}

#[test]
fn unparsable_table_is_unavailable() {
    let vendor = Vendor::new(b"a,b,c\n1,2\n");
    assert_eq!(vendor.has_vendor_db(), false);
}

#[test]
fn lower_case_oui_rows_do_not_match() {
    let vendor = Vendor::new(b"r,oui,name\nMA-L,cc9da2,Lower\n");
    let mac = MacAddress::new(0xcc, 0x9d, 0xa2, 0x14, 0x2e, 0x6f);
    assert_eq!(vendor.search_by_mac(&mac), None);
}

#[test]
fn missing_name_column_reads_as_no_vendor() {
    let rows = vec![vec!["MA-L".to_string(), "0A0B0C".to_string()]];
    let vendor = Vendor::from_records(rows);
    let mac = MacAddress::new(0x0a, 0x0b, 0x0c, 0, 0, 1);
    assert_eq!(vendor.search_by_mac(&mac), Some("(no vendor)".to_string()));
}

#[test]
fn oui_is_upper_case_and_padded() {
    assert_eq!(MacAddress::new(0x00, 0x22, 0x72, 1, 2, 3).oui(), "002272");
    assert_eq!(MacAddress::new(0xcc, 0x9d, 0x0a, 1, 2, 3).oui(), "CC9D0A");
}

#[test]
fn mac_text_is_lower_case_with_colons() {
    assert_eq!(MacAddress::new(0x00, 0x11, 0x22, 0x33, 0x44, 0x55).to_string(), "00:11:22:33:44:55");
    assert_eq!(MacAddress::new(0xab, 0xcd, 0xef, 0x0a, 0x0b, 0xff).to_string(), "ab:cd:ef:0a:0b:ff");
}
