use vstd::prelude::*;

verus! {

/// The directory, inside the user's cache directory, that holds the local
/// caches of all projects.
pub const CACHE_DIR_NAME: &'static str = "fastn.com";

/// The build output directory of a project, and its place inside an archive.
pub const BUILD_DIR_NAME: &'static str = ".build";

/// The place of the local cache inside an archive.
pub const ARCHIVED_CACHE_DIR_NAME: &'static str = "cache";

/// The file extensions (in lower case) of the files that an upload packs.
pub open spec fn valid_extensions() -> Seq<Seq<char>> {
    seq![
        "html"@, "htm"@, "css"@, "js"@, "mjs"@, "json"@, "ftd"@, "md"@, "txt"@, "xml"@,
        "svg"@, "png"@, "jpg"@, "jpeg"@, "gif"@, "ico"@, "webp"@, "woff"@, "woff2"@,
        "ttf"@, "otf"@, "eot"@, "wasm"@, "pdf"@,
    ]
}

/// The file extensions (in lower case) of the files that an upload packs,
/// in the order of `valid_extensions`.
pub fn valid_extension_list() -> (list: Vec<&'static str>)
    ensures
        list@.map_values(|e: &str| e@) == valid_extensions(),
{
    let list = vec![
        "html", "htm", "css", "js", "mjs", "json", "ftd", "md", "txt", "xml",
        "svg", "png", "jpg", "jpeg", "gif", "ico", "webp", "woff", "woff2",
        "ttf", "otf", "eot", "wasm", "pdf",
    ];
    assert(list@.map_values(|e: &str| e@) =~= valid_extensions());
    list
}

} // verus!
