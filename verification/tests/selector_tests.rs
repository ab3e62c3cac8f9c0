use printroute::selector::{get_file_extension, select_delivery, Delivery};

#[test]
fn extension_is_lowercased() {
    assert_eq!(get_file_extension("Report.PDF").unwrap().as_str(), "pdf");
    assert_eq!(get_file_extension("Report.pdf").unwrap().as_str(), "pdf");
    assert_eq!(get_file_extension("report.pDf").unwrap().as_str(), "pdf");
    assert_eq!(get_file_extension("photo.JPeG2").unwrap().as_str(), "jpeg2");
}

#[test]
fn extension_is_the_final_suffix() {
    assert_eq!(get_file_extension("archive.tar.gz").unwrap().as_str(), "gz");
    assert_eq!(get_file_extension(".pdf").unwrap().as_str(), "pdf");
}

#[test]
fn no_extension_cases() {
    assert!(get_file_extension("README").is_none());
    assert!(get_file_extension("").is_none());
    assert!(get_file_extension("ends.with.dot.").is_none());
    assert!(get_file_extension("dash.p-f").is_none());
    assert!(get_file_extension("space.pdf ").is_none());
}

#[test]
fn pdf_routes_to_external_converter_case_insensitively() {
    assert_eq!(select_delivery("Report.PDF"), Delivery::ExternalConverter);
    assert_eq!(select_delivery("Report.pdf"), Delivery::ExternalConverter);
    assert_eq!(select_delivery("report.pDf"), Delivery::ExternalConverter);
}

#[test]
fn no_suffix_routes_to_raw_spool() {
    assert_eq!(select_delivery("README"), Delivery::RawSpool);
}

#[test]
fn other_suffixes_route_to_raw_spool() {
    assert_eq!(select_delivery("listing.txt"), Delivery::RawSpool);
    assert_eq!(select_delivery("notes.pdfx"), Delivery::RawSpool);
    assert_eq!(select_delivery("document.pd"), Delivery::RawSpool);
}
