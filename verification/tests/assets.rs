//! Icons.
use perry_ship_windows::build::assets::{
    check_icon_size, encode_png, generate_ico, write_ico, ICO_SIZES,
};
use perry_ship_windows::package::resources::{
    fixed_resources, icon_resources, update_failure, RT_GROUP_ICON, RT_ICON, RT_MANIFEST,
    RT_VERSION,
};
use perry_ship_windows::queue::job::BuildManifest;

fn png(width: u32, height: u32) -> Vec<u8> {
    let img = image::DynamicImage::new_rgba8(width, height);
    let mut data = Vec::new();
    img.write_to(&mut std::io::Cursor::new(&mut data), image::ImageFormat::Png)
        .unwrap();
    data
}

#[test]
fn test_ico_byte_layout() {
    let data = generate_ico(Some("png"), &png(256, 256)).unwrap();

    // Check ICONDIR header
    assert_eq!(u16::from_le_bytes([data[0], data[1]]), 0); // reserved
    assert_eq!(u16::from_le_bytes([data[2], data[3]]), 1); // type = ICO
    let count = u16::from_le_bytes([data[4], data[5]]);
    assert_eq!(count as usize, ICO_SIZES.len()); // 7 sizes

    // Check first entry (16x16) - width byte should be 16
    assert_eq!(data[6], 16); // width
    assert_eq!(data[7], 16); // height

    // Check last entry (256x256) - width byte should be 0 (means 256)
    let last_entry_offset = 6 + 16 * (count as usize - 1);
    assert_eq!(data[last_entry_offset], 0); // width = 0 means 256

    // Verify all PNG data offsets are valid
    let data_start = 6 + 16 * count as usize;
    assert!(data.len() > data_start);

    // Verify the first PNG starts with the PNG magic bytes
    let first_data_offset = u32::from_le_bytes([data[18], data[19], data[20], data[21]]) as usize;
    assert_eq!(
        &data[first_data_offset..first_data_offset + 4],
        &[0x89, b'P', b'N', b'G']
    );
}

#[test]
fn test_rejects_small_icon() {
    let result = generate_ico(Some("png"), &png(128, 128));
    assert!(result.is_err());
    assert!(result.unwrap_err().contains("256x256"));
}

#[test]
fn small_icons_are_named_with_their_size() {
    assert_eq!(
        generate_ico(Some("png"), &png(300, 255)).unwrap_err(),
        "Icon must be at least 256x256, got 300x255"
    );
    assert_eq!(
        check_icon_size(1, 256).unwrap_err(),
        "Icon must be at least 256x256, got 1x256"
    );
    assert!(check_icon_size(256, 256).is_ok());
}

#[test]
fn unknown_formats_are_refused() {
    assert_eq!(
        generate_ico(None, &png(256, 256)).unwrap_err(),
        "Failed to open icon: The image format could not be determined"
    );
    assert_eq!(
        generate_ico(Some(""), &png(256, 256)).unwrap_err(),
        "Failed to open icon: The image format could not be determined"
    );
    assert_eq!(
        generate_ico(Some("txt"), &png(256, 256)).unwrap_err(),
        "Failed to open icon: The file extension `.\"txt\"` was not recognized as an image format"
    );
    let broken = generate_ico(Some("png"), b"not a picture").unwrap_err();
    assert!(broken.starts_with("Failed to open icon: "));
}

#[test]
fn an_icon_holds_a_picture_of_each_size() {
    let data = generate_ico(Some("png"), &png(512, 300)).unwrap();
    let (updates, error) = icon_resources(&data);
    assert!(error.is_none());
    assert_eq!(updates.len(), ICO_SIZES.len() + 1);
    for (k, size) in ICO_SIZES.iter().enumerate() {
        let resource = &updates[k + 1];
        assert_eq!(resource.kind, RT_ICON);
        assert_eq!(resource.id as usize, k + 1);
        let img = image::load_from_memory(&resource.data).unwrap();
        assert_eq!((img.width(), img.height()), (*size, *size));
    }
}

#[test]
fn pictures_become_png() {
    let img = image::DynamicImage::new_rgb8(3, 2);
    let data = encode_png(&img).unwrap();
    let back = image::load_from_memory(&data).unwrap();
    assert_eq!((back.width(), back.height()), (3, 2));
}

#[test]
fn containers_are_read_back_whole() {
    let entries = vec![(16u32, vec![1u8, 2, 3]), (256, vec![]), (300, vec![9, 9])];
    let file = write_ico(&entries);
    assert_eq!(file.len(), 6 + 16 * 3 + 5);
    assert_eq!(&file[0..6], &[0, 0, 1, 0, 3, 0]);
    // size, size, palette, reserved, planes, bits, length, offset
    assert_eq!(
        &file[6..22],
        &[16, 16, 0, 0, 1, 0, 32, 0, 3, 0, 0, 0, 54, 0, 0, 0]
    );
    assert_eq!(file[22], 0);
    assert_eq!(&file[54..], &[1, 2, 3, 9, 9]);

    let (updates, error) = icon_resources(&file);
    assert!(error.is_none());
    assert_eq!(updates.len(), 4);
    assert_eq!(updates[0].kind, RT_GROUP_ICON);
    assert_eq!(updates[0].id, 1);
    assert_eq!(updates[0].data.len(), 6 + 14 * 3);
    assert_eq!(&updates[0].data[0..6], &file[0..6]);
    assert_eq!(&updates[0].data[6..18], &file[6..18]);
    assert_eq!(&updates[0].data[18..20], &[1, 0]);
    for (k, (_, data)) in entries.iter().enumerate() {
        assert_eq!(&updates[k + 1].data, data);
        assert_eq!(updates[k + 1].label, format!("icon {k}"));
    }
}

#[test]
fn broken_containers_are_refused() {
    let (updates, error) = icon_resources(&[0, 0, 1, 0, 1]);
    assert!(updates.is_empty());
    assert_eq!(error.unwrap(), "ICO data too small");
    let (updates, error) = icon_resources(&[0, 0, 1, 0, 1, 0]);
    assert!(updates.is_empty());
    assert_eq!(error.unwrap(), "ICO data truncated");
    let mut file = write_ico(&vec![(16, vec![1, 2]), (24, vec![3, 4])]);
    file.pop();
    let (updates, error) = icon_resources(&file);
    assert_eq!(updates.len(), 2);
    assert_eq!(error.unwrap(), "ICO image 1 extends beyond file");
    // An offset and a length whose sum does not fit in 32 bits.
    let mut huge = write_ico(&vec![(16, vec![1])]);
    for i in 14..22 {
        huge[i] = 0xFF;
    }
    assert_eq!(icon_resources(&huge).1.unwrap(), "ICO image 0 extends beyond file");
}

#[test]
fn every_executable_gets_manifest_and_version() {
    let m = BuildManifest {
        app_name: "TestApp".into(),
        bundle_id: "com.test.app".into(),
        version: "1.2.3".into(),
        short_version: None,
        entry: "src/main.ts".into(),
        icon: None,
        targets: vec![],
        category: None,
        minimum_os_version: None,
        entitlements: None,
        windows_distribute: None,
        windows_uac_level: None,
        windows_dpi_aware: None,
        windows_file_description: None,
        windows_company_name: None,
        windows_copyright: None,
    };
    let list = fixed_resources(&m, "<é/>");
    assert_eq!(list.len(), 2);
    assert_eq!((list[0].kind, list[0].id), (RT_MANIFEST, 1));
    assert_eq!(list[0].data, "<é/>".as_bytes());
    assert_eq!((list[1].kind, list[1].id), (RT_VERSION, 1));
    assert_eq!(
        list[1].data,
        perry_ship_windows::package::version_info::build_vs_version_info(&m)
    );
    assert_eq!(
        update_failure(&list[1].label, "no"),
        "UpdateResource (version) failed: no"
    );
}
