use robius::file_location::FileLocation;
use robius::file_picker::android;
use robius::file_picker::desktop::{
    candidate_name, dialog, download_plan, media_dialog, needs_copy, UserDirectories,
};
use robius::file_picker::ios;
use robius::file_picker::mime::{
    choose_mime_type, collect_mime_types, mime_types, primary_mime_type, save_data_mime_type,
    save_mime_type,
};
use robius::file_picker::picked::{
    directory_name, read_step, LocalStep, PickedFile, PickedLocation, ReadStep,
};
use robius::file_picker::{
    media_filters, DialogOptions, DialogRequest, Error, FileDialog, FileFilter, MediaKind,
    StartLocation, DEFAULT_IMAGE_EXTENSIONS, DEFAULT_VIDEO_EXTENSIONS,
};
use robius::path::{FilePath, PathStyle};

fn path(text: &str) -> FilePath {
    FilePath::from_text(text)
}

fn directories() -> UserDirectories {
    UserDirectories {
        desktop: Some(path("/home/me/Desktop")),
        documents: None,
        downloads: Some(path("/home/me/Downloads")),
        pictures: Some(path("/home/me/Pictures")),
        music: None,
        videos: None,
    }
}

#[test]
fn builders_collect_dialog_options() {
    let request = FileDialog::new()
        .add_filter("Text", &["txt", "md"])
        .add_filter("Rust", &["rs"])
        .set_directory(&path("/tmp"))
        .set_start_location(StartLocation::Desktop)
        .set_file_name("a.txt")
        .set_title("Open")
        .set_mime_type("text/plain")
        .pick_file();
    let DialogRequest::Open(options) = request else {
        panic!("expected a dialog to open a file");
    };
    assert_eq!(options.filters.len(), 2);
    assert_eq!(options.filters[0].extensions, vec!["txt", "md"]);
    assert_eq!(options.directory, Some(path("/tmp")));
    assert_eq!(options.start_location, Some(StartLocation::Desktop));
    assert_eq!(options.file_name.as_deref(), Some("a.txt"));
    assert_eq!(options.title.as_deref(), Some("Open"));
    assert_eq!(options.mime_type.as_deref(), Some("text/plain"));
}

#[test]
fn media_dialogs_know_their_kind() {
    assert!(matches!(
        FileDialog::new().pick_image(),
        DialogRequest::Media { kind: MediaKind::Image, .. }
    ));
    assert!(matches!(
        FileDialog::new().pick_video(),
        DialogRequest::Media { kind: MediaKind::Video, .. }
    ));
    assert!(matches!(
        FileDialog::new().pick_image_or_video(),
        DialogRequest::Media { kind: MediaKind::ImageOrVideo, .. }
    ));
    assert_eq!(media_filters(MediaKind::Image)[0].extensions.len(), 40);
    assert_eq!(media_filters(MediaKind::Video)[0].extensions.len(), 29);
    assert!(DEFAULT_IMAGE_EXTENSIONS.contains(&"png"));
    assert!(DEFAULT_VIDEO_EXTENSIONS.contains(&"mp4"));
}

#[test]
fn saved_data_needs_a_name() {
    assert!(matches!(FileDialog::new().save_data(PathStyle::Unix), Err(Error::InvalidFileName)));
    for bad in ["", "/", "..", "."] {
        assert!(matches!(
            FileDialog::new().set_file_name(bad).save_data(PathStyle::Unix),
            Err(Error::InvalidFileName)
        ));
    }
    let Ok(DialogRequest::SaveData { file_name, .. }) =
        FileDialog::new().set_file_name("a.txt").save_data(PathStyle::Unix)
    else {
        panic!("expected a dialog to save data");
    };
    assert_eq!(file_name, "a.txt");
    // Only the last component counts.
    let Ok(DialogRequest::SaveData { file_name, .. }) =
        FileDialog::new().set_file_name("a/b.txt").save_data(PathStyle::Unix)
    else {
        panic!("expected a dialog to save data");
    };
    assert_eq!(file_name, "b.txt");
}

#[test]
fn output_names_come_from_the_source_last() {
    let mut options = DialogOptions::unset();
    assert_eq!(options.output_file_name(&path("/a/b.txt"), PathStyle::Unix), Ok("b.txt".to_string()));
    options.file_name = Some("c.txt".to_string());
    assert_eq!(options.output_file_name(&path("/a/b.txt"), PathStyle::Unix), Ok("c.txt".to_string()));
    let unset = DialogOptions::unset();
    assert_eq!(unset.output_file_name(&path("/"), PathStyle::Unix), Err(Error::InvalidFileName));
    let raw = FilePath { bytes: vec![b'/', 0xff] };
    assert_eq!(unset.output_file_name(&raw, PathStyle::Unix), Err(Error::InvalidFileName));
}

#[test]
fn paths_are_taken_apart() {
    assert_eq!(path("/a/b.tar.gz").file_name(PathStyle::Unix).as_deref(), Some("b.tar.gz"));
    assert_eq!(path("/a/b.tar.gz").extension(PathStyle::Unix).as_deref(), Some("gz"));
    assert_eq!(path("/a/b.tar.gz").file_stem(PathStyle::Unix).as_deref(), Some("b.tar"));
    assert_eq!(path("/a/.hidden").extension(PathStyle::Unix), None);
    assert_eq!(path("/a/.hidden").file_stem(PathStyle::Unix).as_deref(), Some(".hidden"));
    assert_eq!(path("/a/..").file_name(PathStyle::Unix), None);
    assert_eq!(path("/a/b/").file_name(PathStyle::Unix).as_deref(), Some("b"));
    assert_eq!(path("/a").join("b"), path("/a/b"));
    assert_eq!(path("/a/").join("b"), path("/a/b"));
    assert_eq!(path("/a").join("/b"), path("/b"));
    assert!(path("/a//b/./c").same_path(&path("/a/b/c"), PathStyle::Unix));
    assert!(!path("a").same_path(&path("/a"), PathStyle::Unix));
    assert!(path("").is_empty());
    let raw = FilePath { bytes: vec![b'a', 0xff, b'.', b'b'] };
    assert_eq!(raw.to_text(), None);
    assert_eq!(raw.to_text_lossy(), "a\u{fffd}.b");
    assert_eq!(raw.lossy_stem(PathStyle::Unix).as_deref(), Some("a\u{fffd}"));
    assert_eq!(path("ö").to_text().as_deref(), Some("ö"));
}

#[test]
fn types_are_guessed_from_extensions() {
    let mut options = DialogOptions::unset();
    options.filters = vec![FileFilter::new("Pictures", &["png", "jpg", "jpeg"])];
    let types = mime_types(&options);
    assert!(types.contains(&"image/png".to_string()));
    assert!(types.contains(&"image/jpeg".to_string()));
    assert_eq!(types.iter().filter(|t| *t == "image/jpeg").count(), 1);
    options.mime_type = Some("text/plain".to_string());
    assert!(mime_types(&options).contains(&"text/plain".to_string()));
    assert_eq!(save_mime_type(&DialogOptions::unset(), &path("/a.png")), "image/png");
    assert_eq!(save_data_mime_type(&DialogOptions::unset(), "b.txt"), "text/plain");
    assert_eq!(save_data_mime_type(&options, "b.png"), "text/plain");
}

#[test]
fn types_are_chosen_in_order() {
    let guesses = vec!["b/b".to_string(), "a/a".to_string(), "b/b".to_string()];
    assert_eq!(
        collect_mime_types(&Some("x/x".to_string()), &guesses),
        vec!["a/a", "b/b", "x/x"]
    );
    assert_eq!(collect_mime_types(&None, &vec![]).len(), 0);
    assert_eq!(primary_mime_type(&None, &vec![]), "*/*");
    assert_eq!(primary_mime_type(&None, &vec!["a/a".to_string()]), "a/a");
    assert_eq!(
        primary_mime_type(&None, &vec!["a/a".to_string(), "b/b".to_string()]),
        "*/*"
    );
    assert_eq!(
        choose_mime_type(&Some("x/x".to_string()), Some("g/g".to_string()), &vec![]),
        "x/x"
    );
    assert_eq!(choose_mime_type(&None, Some("g/g".to_string()), &vec![]), "g/g");
}

#[test]
fn desktop_dialogs_resolve_where_they_start() {
    let mut options = DialogOptions::unset();
    options.start_location = Some(StartLocation::Pictures);
    options.title = Some("T".to_string());
    let plan = dialog(&options, &directories());
    assert_eq!(plan.directory, Some(path("/home/me/Pictures")));
    assert_eq!(plan.title.as_deref(), Some("T"));
    options.directory = Some(path("/x"));
    assert_eq!(dialog(&options, &directories()).directory, Some(path("/x")));
    let plan = media_dialog(&DialogOptions::unset(), &directories(), MediaKind::Image);
    assert!(!plan.filters.is_empty());
    let mut filtered = DialogOptions::unset();
    filtered.filters = vec![FileFilter::new("Only", &["x", ".y"])];
    let plan = media_dialog(&filtered, &directories(), MediaKind::Image);
    assert_eq!(plan.filters.len(), 1);
    assert_eq!(plan.filters[0].name, "Only");
    // Extensions may come with a dot.
    assert_eq!(plan.filters[0].extensions, vec!["x", "y"]);
}

#[test]
fn downloads_do_not_overwrite_each_other() {
    let plan = download_plan(&DialogOptions::unset(), &path("/a/b.txt"), &directories(), PathStyle::Unix).unwrap();
    assert_eq!(plan.directory, path("/home/me/Downloads"));
    assert_eq!(plan.file_name, "b.txt");
    assert_eq!(candidate_name("b.txt", 0, PathStyle::Unix), "b.txt");
    assert_eq!(candidate_name("b.txt", 1, PathStyle::Unix), "b (1).txt");
    assert_eq!(candidate_name("b", 12, PathStyle::Unix), "b (12)");
    let nowhere = UserDirectories { downloads: None, ..directories() };
    assert!(download_plan(&DialogOptions::unset(), &path("/a/b.txt"), &nowhere, PathStyle::Unix).is_err());
    assert!(needs_copy(&path("/a"), &path("/b"), PathStyle::Unix));
    assert!(!needs_copy(&path("/a/./b"), &path("/a/b"), PathStyle::Unix));
}

#[test]
fn picked_files_have_a_path_or_a_uri() {
    let file = PickedFile::from_path(path("/a/b.txt"));
    assert_eq!(file.path(), Some(&path("/a/b.txt")));
    assert_eq!(file.uri(), None);
    assert_eq!(file.file_name(PathStyle::Unix).as_deref(), Some("b.txt"));
    assert_eq!(file.into_path(), Some(path("/a/b.txt")));

    let file = PickedFile::from_uri_with_metadata(
        "content://x/1".to_string(),
        Some("b.txt".to_string()),
        Some("text/plain".to_string()),
        Some(5),
    );
    assert_eq!(file.path(), None);
    assert_eq!(file.uri().map(|uri| uri.as_str()), Some("content://x/1"));
    assert_eq!(file.display_name().as_deref(), Some("b.txt"));
    assert_eq!(file.mime_type().as_deref(), Some("text/plain"));
    assert_eq!(file.size(), Some(5));
    assert_eq!(read_step(&file, true), Ok(ReadStep::FromUri));
    assert!(read_step(&file, false).is_err());
    let LocalStep::Copy(request) = file.into_local_file(7, 9) else {
        panic!("expected a copy");
    };
    assert_eq!(request.file_name, "b.txt");
    assert_eq!(request.directory_name, directory_name(7, 9));
    let local = request.copied(path("/tmp/d/b.txt"));
    assert!(local.is_temporary());
    assert_eq!(local.path(), &path("/tmp/d/b.txt"));
    assert_eq!(local.size(), Some(5));
    assert_ne!(directory_name(7, 9), directory_name(7, 10));

    let owned = PickedFile::from_owned_temp_path(path("/tmp/x"));
    assert!(matches!(
        owned.location,
        PickedLocation::Path { owned_temp: true, .. }
    ));
    let LocalStep::Ready(local) = owned.into_local_file(7, 9) else {
        panic!("expected no copy");
    };
    assert!(local.is_temporary());
    let plain = PickedFile::from_uri("content://y".to_string());
    assert_eq!(plain.into_uri().as_deref(), Some("content://y"));
}

#[test]
fn file_locations_are_one_or_the_other() {
    let location = FileLocation::from_path(&path("/a"));
    assert_eq!(location.path(), Some(&path("/a")));
    assert_eq!(location.uri(), None);
    assert_eq!(location.into_path(), Some(path("/a")));
    let location = FileLocation::from_uri("content://a");
    assert_eq!(location.path(), None);
    assert_eq!(location.into_uri().as_deref(), Some("content://a"));
}

#[test]
fn android_arguments_follow_the_options() {
    let mut options = DialogOptions::unset();
    options.filters = vec![FileFilter::new("Text", &["txt"])];
    let arguments = android::open_arguments(&options);
    assert_eq!(arguments.mime_type, "text/plain");
    assert_eq!(arguments.mime_types, vec!["text/plain"]);
    options.start_location = Some(StartLocation::Downloads);
    assert!(android::open_arguments(&options).initial_location.is_some());
    assert!(android::save_data_arguments(&options).is_err());
    options.file_name = Some("a.png".to_string());
    let save = android::save_data_arguments(&options).unwrap();
    assert_eq!(save.file_name, "a.png");
    assert_eq!(save.mime_type, "image/png");
    let download = android::download_arguments(&options, &path("/a/b.txt")).unwrap();
    assert_eq!(download.source_path, "/a/b.txt");
    assert_eq!(android::accepted(true), Ok(()));
    assert_eq!(android::accepted(false), Err(Error::AlreadyOpen));
    assert_eq!(android::io_outcome(true), Ok(()));
    assert_eq!(android::io_outcome(false), Err(Error::Io));
}

#[test]
fn android_results_are_read() {
    let picked = android::dialog_result(
        android::RESULT_OK,
        Some("content://x".to_string()),
        Some("n".to_string()),
        None,
        -1,
    )
    .unwrap()
    .unwrap();
    assert_eq!(picked.uri().map(|uri| uri.as_str()), Some("content://x"));
    assert_eq!(picked.size(), None);
    assert!(android::dialog_result(android::RESULT_CANCELED, None, None, None, 0)
        .unwrap()
        .is_none());
    assert!(android::dialog_result(android::RESULT_ERROR, None, None, None, 0).is_err());
    assert!(android::copy_destination(&path("/a")).is_ok());
}

#[test]
fn desktop_names_are_those_of_the_system() {
    let options = DialogOptions::unset();
    let source = path(r"C:\a\b.txt");
    let name = |style| options.output_file_name(&source, style).unwrap();
    assert_eq!(name(PathStyle::Windows), "b.txt");
    assert_eq!(name(PathStyle::Unix), r"C:\a\b.txt");
    let file = PickedFile::from_path(path(r"C:\a\b.txt"));
    assert_eq!(file.file_name(PathStyle::Windows).as_deref(), Some("b.txt"));
    let mut named = DialogOptions::unset();
    named.file_name = Some(r"x\c.txt".to_string());
    assert_eq!(named.output_file_name_only(PathStyle::Windows), Ok("c.txt".to_string()));
    named.file_name = Some(r"C:\".to_string());
    assert_eq!(
        named.output_file_name_only(PathStyle::Windows),
        Err(Error::InvalidFileName)
    );
    assert_eq!(candidate_name("b.txt", 2, PathStyle::Windows), "b (2).txt");
    assert!(!needs_copy(&path(r"c:\a\b"), &path("C:/a/b"), PathStyle::Windows));
    assert!(needs_copy(&path(r"c:\a\b"), &path("C:/a/b"), PathStyle::Unix));
}

#[test]
fn only_temporary_files_go_away() {
    let local = |file: PickedFile| match file.into_local_file(1, 2) {
        LocalStep::Ready(file) => file,
        LocalStep::Copy(request) => request.copied(path("/tmp/copy")),
    };
    let chosen = local(PickedFile::from_path(path("/a")));
    assert!(!chosen.is_temporary());
    assert_eq!(chosen.to_remove(), None);
    let ours = local(PickedFile::from_owned_temp_path(path("/tmp/x")));
    assert!(ours.is_temporary());
    assert_eq!(ours.to_remove(), Some(&path("/tmp/x")));
    let copied = local(PickedFile::from_uri("content://x".to_string()));
    assert!(copied.is_temporary());
    assert_eq!(copied.to_remove(), Some(&path("/tmp/copy")));
}

#[test]
fn ios_pickers_tell_the_application_once() {
    let mut pending = ios::PendingPicker::new(Some(path("/tmp/x")));
    let finish = pending.finish();
    assert!(finish.tell);
    let again = pending.finish();
    assert!(!again.tell);
    assert_eq!(again.remove, None);
}

#[test]
fn ios_choices() {
    assert_eq!(ios::best_file(&vec![]), None);
    assert_eq!(ios::best_file(&vec![1, 3, 3]), Some(1));
    assert_eq!(ios::file_type_priority(true, true), 3);
    assert_eq!(ios::file_type_priority(false, true), 2);
    assert_eq!(ios::file_type_priority(false, false), 1);
    assert_eq!(
        ios::active_window(false, &vec![false, true]),
        Some(ios::WindowChoice::Listed(1))
    );
    assert_eq!(ios::active_window(true, &vec![]), Some(ios::WindowChoice::KeyWindow));
    assert!(matches!(
        ios::export_source(&DialogOptions::unset(), &path("/a/b.txt")),
        Ok(ios::ExportSource::Original)
    ));
    let mut options = DialogOptions::unset();
    options.file_name = Some("c.txt".to_string());
    assert!(matches!(
        ios::export_source(&options, &path("/a/b.txt")),
        Ok(ios::ExportSource::CopyNamed(name)) if name == "c.txt"
    ));
    let documents = ios::media_document_options(DialogOptions::unset(), MediaKind::Image);
    assert_eq!(documents.filters.len(), 1);
    assert_eq!(documents.mime_type.as_deref(), Some("image/*"));
    let queries = ios::content_queries(&documents);
    assert_eq!(queries.len(), 41);
    assert_eq!(queries[0], ios::ContentQuery::AnyImage);
    assert_eq!(queries[1], ios::ContentQuery::ByExtension("jpg".to_string()));
    let both = ios::media_document_options(DialogOptions::unset(), MediaKind::ImageOrVideo);
    assert_eq!(both.filters.len(), 2);
    assert_eq!(both.mime_type, None);
    assert!(ios::accepts_anything(0));
    assert!(!ios::accepts_anything(1));
    assert_eq!(
        ios::resolve_start_location(&Some(path("/home")), StartLocation::Documents),
        Some(path("/home/Documents"))
    );
    let mut options = DialogOptions::unset();
    assert_eq!(ios::initial_directory(&options, &Some(path("/home"))), None);
    options.start_location = Some(StartLocation::Videos);
    assert_eq!(ios::initial_directory(&options, &None), None);
    assert_eq!(
        ios::initial_directory(&options, &Some(path("/home"))),
        Some(path("/home/Movies"))
    );
    options.directory = Some(path("/elsewhere"));
    assert_eq!(
        ios::initial_directory(&options, &Some(path("/home"))),
        Some(path("/elsewhere"))
    );
}

#[test]
fn filters_can_be_replaced() {
    let DialogRequest::Open(options) = FileDialog::new()
        .add_filter("Text", &["txt"])
        .set_filters(vec![FileFilter::new("Rust", &["rs"])])
        .pick_file()
    else {
        panic!("expected a dialog to open a file");
    };
    assert_eq!(options.filters.len(), 1);
    assert_eq!(options.filters[0].name, "Rust");
    let DialogRequest::Open(options) =
        FileDialog::new().add_filter("Text", &["txt"]).set_filters(vec![]).pick_file()
    else {
        panic!("expected a dialog to open a file");
    };
    assert!(options.filters.is_empty());
    let DialogRequest::SaveToDownloads { source, .. } =
        FileDialog::new().save_to_downloads(&path("/a/b"))
    else {
        panic!("expected a file to be saved");
    };
    assert_eq!(source, path("/a/b"));
}

#[test]
fn ios_media_are_chosen() {
    assert_eq!(
        ios::media_type_choice(MediaKind::ImageOrVideo, true, true),
        ios::MediaChoice::Image
    );
    assert_eq!(
        ios::media_type_choice(MediaKind::Video, true, true),
        ios::MediaChoice::Movie
    );
    assert_eq!(
        ios::media_type_choice(MediaKind::Image, false, true),
        ios::MediaChoice::FirstRegistered
    );
    assert_eq!(
        ios::media_step(MediaKind::Image, false, true, true, true),
        ios::MediaStep::Cancelled
    );
    assert_eq!(
        ios::media_step(MediaKind::Image, true, true, true, false),
        ios::MediaStep::Load(ios::MediaChoice::Image)
    );
    assert_eq!(
        ios::media_step(MediaKind::Video, true, true, false, true),
        ios::MediaStep::Load(ios::MediaChoice::FirstRegistered)
    );
    assert_eq!(
        ios::media_step(MediaKind::Video, true, true, false, false),
        ios::MediaStep::Fail(Error::Unknown)
    );
    let loaded = Some(PickedFile::from_path(path("/a")));
    assert_eq!(ios::media_loaded(true, loaded.clone()), Err(Error::Unknown));
    assert_eq!(ios::media_loaded(false, None), Err(Error::Unknown));
    assert_eq!(ios::media_loaded(false, loaded.clone()), Ok(loaded));
    assert_eq!(ios::media_file_name(&path("/a/b.jpg"), None), "b.jpg");
    assert_eq!(ios::media_file_name(&path("/"), Some("c.jpg".to_string())), "c.jpg");
    assert_eq!(ios::media_file_name(&path("/"), None), "media");
    let file = ios::file_from_url(Some(path("/a")), Some("file:///a".to_string()), true);
    assert_eq!(file.path(), Some(&path("/a")));
    let file = ios::file_from_url(None, Some("x://y".to_string()), true);
    assert_eq!(file.uri().map(|uri| uri.as_str()), Some("x://y"));
    assert_eq!(ios::presenter(&vec![false, false]), Ok(1));
    assert_eq!(ios::presenter(&vec![false, true]), Err(Error::AlreadyOpen));
    assert_eq!(ios::presenter(&vec![]), Err(Error::Unknown));
    assert!(ios::PendingPicker::new(None).result_owns_temp());
    assert!(!ios::PendingPicker::new(Some(path("/tmp/x"))).result_owns_temp());
    assert!(ios::first_chosen(None).is_err());
    assert!(ios::first_chosen(Some(PickedFile::from_path(path("/a")))).unwrap().is_some());
    assert_eq!(android::android_media_kind(MediaKind::Video), 2);
    assert_eq!(android::android_media_kind(MediaKind::ImageOrVideo), 3);
}
