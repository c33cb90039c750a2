use wallselect::utils::{
    attrs_to_str, choose_preview, get_str_attr, is_image, retrieve_thumbnail, wallpaper_dir_arg, FileAttribute,
    FileDetails, Preview, FILE_ATTRIBUTE_THUMBNAIL_IS_VALID, FILE_ATTRIBUTE_THUMBNAIL_PATH,
};

fn attr(name: &str, text: Option<&str>) -> FileAttribute {
    FileAttribute { name: name.to_string(), text: text.map(|t| t.to_string()) }
}

fn details(content_type: Option<&str>, attributes: Vec<FileAttribute>) -> FileDetails {
    FileDetails { content_type: content_type.map(|c| c.to_string()), attributes }
}

#[test]
fn attribute_list_is_comma_terminated() {
    let list = attrs_to_str(&[
        "standard::content-type",
        "thumbnail::path",
        "thumbnail::is-valid",
        "standard::name",
    ]);
    assert_eq!(list, "standard::content-type,thumbnail::path,thumbnail::is-valid,standard::name,");
}

#[test]
fn empty_attribute_list() {
    assert_eq!(attrs_to_str(&[]), "");
}

#[test]
fn attribute_list_keeps_inner_whitespace() {
    assert_eq!(attrs_to_str(&["a ", " b\t"]), "a , b\t,");
}

#[test]
fn image_content_types() {
    assert!(is_image(&details(Some("image/png"), vec![])));
    assert!(is_image(&details(Some("image/jpeg"), vec![])));
    assert!(is_image(&details(Some("image"), vec![])));
    assert!(is_image(&details(Some("image/"), vec![])));
}

#[test]
fn non_image_content_types() {
    assert!(!is_image(&details(None, vec![])));
    assert!(!is_image(&details(Some(""), vec![])));
    assert!(!is_image(&details(Some("text/plain"), vec![])));
    assert!(!is_image(&details(Some("imagex/png"), vec![])));
    assert!(!is_image(&details(Some("/image"), vec![])));
    assert!(!is_image(&details(Some("Image/png"), vec![])));
}

#[test]
fn string_attributes_are_looked_up_by_name() {
    let fi = details(
        Some("image/png"),
        vec![
            attr("standard::name", Some("a.png")),
            attr("standard::icon", None),
            attr("standard::name", Some("shadowed.png")),
        ],
    );
    assert_eq!(get_str_attr(&fi, "standard::name"), Some("a.png".to_string()));
    assert_eq!(get_str_attr(&fi, "standard::icon"), None);
    assert_eq!(get_str_attr(&fi, "standard::size"), None);
}

#[test]
fn valid_thumbnail_is_used() {
    let fi = details(
        Some("image/png"),
        vec![
            attr(FILE_ATTRIBUTE_THUMBNAIL_PATH, Some("/cache/t.png")),
            attr(FILE_ATTRIBUTE_THUMBNAIL_IS_VALID, Some("TRUE")),
        ],
    );
    assert_eq!(retrieve_thumbnail(&fi), Some("/cache/t.png".to_string()));
}

#[test]
fn stale_thumbnail_is_ignored() {
    let fi = details(
        Some("image/png"),
        vec![
            attr("thumbnail::is-valid", Some("FALSE")),
            attr("thumbnail::path", Some("/cache/t.png")),
        ],
    );
    assert_eq!(retrieve_thumbnail(&fi), None);
}

#[test]
fn thumbnail_without_validity_is_ignored() {
    let fi = details(Some("image/png"), vec![attr("thumbnail::path", Some("/cache/t.png"))]);
    assert_eq!(retrieve_thumbnail(&fi), None);
    let fi = details(Some("image/png"), vec![attr("thumbnail::is-valid", None)]);
    assert_eq!(retrieve_thumbnail(&fi), None);
}

#[test]
fn valid_flag_without_path() {
    let fi = details(Some("image/png"), vec![attr("thumbnail::is-valid", Some("TRUE"))]);
    assert_eq!(retrieve_thumbnail(&fi), None);
}

#[test]
fn directory_argument_or_default() {
    assert_eq!(wallpaper_dir_arg(&vec![]), "~/Pictures");
    assert_eq!(wallpaper_dir_arg(&vec!["picker".to_string()]), "~/Pictures");
    assert_eq!(
        wallpaper_dir_arg(&vec!["picker".to_string(), "/walls".to_string(), "x".to_string()]),
        "/walls"
    );
}

#[test]
fn previews_follow_type_and_thumbnail() {
    let thumb = vec![
        attr("thumbnail::is-valid", Some("TRUE")),
        attr("thumbnail::path", Some("/cache/t.png")),
    ];
    assert_eq!(choose_preview(&details(Some("text/plain"), thumb.clone())), Preview::Nothing);
    assert_eq!(
        choose_preview(&details(Some("image/png"), thumb)),
        Preview::Thumbnail("/cache/t.png".to_string())
    );
    assert_eq!(choose_preview(&details(Some("image/png"), vec![])), Preview::Render);
    let stale = vec![
        attr("thumbnail::is-valid", Some("FALSE")),
        attr("thumbnail::path", Some("/cache/t.png")),
    ];
    assert_eq!(choose_preview(&details(Some("image/webp"), stale)), Preview::Render);
}

#[test]
fn attribute_lists_split_back_into_names() {
    let names = ["standard::content-type", "thumbnail::path", "standard::name"];
    let list = attrs_to_str(&names);
    let pieces: Vec<&str> = list.split(',').collect();
    assert_eq!(pieces, vec!["standard::content-type", "thumbnail::path", "standard::name", ""]);
    assert_eq!(attrs_to_str(&[]).split(',').collect::<Vec<_>>(), vec![""]);
}

#[test]
fn attribute_lists_concatenate() {
    let a = ["standard::name", "a b"];
    let b = ["thumbnail::path"];
    let both = ["standard::name", "a b", "thumbnail::path"];
    assert_eq!(attrs_to_str(&both), attrs_to_str(&a) + &attrs_to_str(&b));
}
