//! The fixed denylists: directory names, file names and extensions.
use vstd::prelude::*;

verus! {

/// The abstract contents of a table of names.
pub open spec fn names_of(table: Seq<&str>) -> Seq<Seq<char>> {
    table.map_values(|s: &str| s@)
}

/// Directory names whose subtrees are never walked (matched case-sensitively).
pub open spec fn ignored_dirs() -> Seq<Seq<char>> {
    seq![
        ".git"@, ".idea"@, ".vscode"@, ".vs"@, "__pycache__"@, "node_modules"@,
        "venv"@, ".venv"@, "env"@, "dist"@, "build"@, "target"@, "out"@,
        "bin"@, "obj"@, "debug"@, "release"@,
        ".gradle"@, "captures"@, "gradle"@, ".DS_Store"@, "coverage"@, ".next"@, ".nuxt"@,
    ]
}

/// Lower-case file names that are never embedded.
pub open spec fn ignored_file_names() -> Seq<Seq<char>> {
    seq![
        "gradlew"@, "gradlew.bat"@, "mvnw"@, "mvnw.cmd"@,
        "local.properties"@, "thumbs.db"@, "desktop.ini"@,
        "package-lock.json"@, "yarn.lock"@, "pnpm-lock.yaml"@, "cargo.lock"@, "poetry.lock"@,
    ]
}

/// Lower-case extensions, each with its leading dot, that are never embedded.
pub open spec fn ignored_extensions() -> Seq<Seq<char>> {
    seq![
        ".png"@, ".jpg"@, ".jpeg"@, ".gif"@, ".bmp"@, ".ico"@, ".svg"@, ".webp"@, ".tiff"@,
        ".mp3"@, ".mp4"@, ".wav"@, ".avi"@, ".mov"@,
        ".exe"@, ".dll"@, ".so"@, ".dylib"@, ".bin"@, ".apk"@, ".aab"@, ".jar"@, ".war"@,
        ".zip"@, ".tar"@, ".gz"@, ".7z"@, ".rar"@, ".iso"@, ".cab"@,
        ".pyc"@, ".class"@, ".o"@, ".obj"@, ".pdb"@, ".suo"@,
        ".db"@, ".sqlite"@, ".sqlite3"@, ".lock"@, ".log"@,
        ".md"@,
    ]
}

/// The ignored directory names.
pub fn get_ignore_dirs() -> (r: Vec<&'static str>)
    ensures
        names_of(r@) == ignored_dirs(),
{
    let r: Vec<&'static str> = vec![
        ".git", ".idea", ".vscode", ".vs", "__pycache__", "node_modules",
        "venv", ".venv", "env", "dist", "build", "target", "out",
        "bin", "obj", "debug", "release",
        ".gradle", "captures", "gradle", ".DS_Store", "coverage", ".next", ".nuxt",
    ];
    assert(names_of(r@) =~= ignored_dirs());
    r
}

/// The ignored file names, in lower case.
pub fn get_ignore_filenames() -> (r: Vec<&'static str>)
    ensures
        names_of(r@) == ignored_file_names(),
{
    let r: Vec<&'static str> = vec![
        "gradlew", "gradlew.bat", "mvnw", "mvnw.cmd",
        "local.properties", "thumbs.db", "desktop.ini",
        "package-lock.json", "yarn.lock", "pnpm-lock.yaml", "cargo.lock", "poetry.lock",
    ];
    assert(names_of(r@) =~= ignored_file_names());
    r
}

/// The ignored extensions, in lower case and with their leading dot.
pub fn get_ignore_extensions() -> (r: Vec<&'static str>)
    ensures
        names_of(r@) == ignored_extensions(),
{
    let r: Vec<&'static str> = vec![
        // media
        ".png", ".jpg", ".jpeg", ".gif", ".bmp", ".ico", ".svg", ".webp", ".tiff",
        ".mp3", ".mp4", ".wav", ".avi", ".mov",
        // binaries and archives
        ".exe", ".dll", ".so", ".dylib", ".bin", ".apk", ".aab", ".jar", ".war",
        ".zip", ".tar", ".gz", ".7z", ".rar", ".iso", ".cab",
        // build artifacts, databases, logs
        ".pyc", ".class", ".o", ".obj", ".pdb", ".suo",
        ".db", ".sqlite", ".sqlite3", ".lock", ".log",
        // documentation, which also keeps earlier output out
        ".md",
    ];
    assert(names_of(r@) =~= ignored_extensions());
    r
}

/// Exact equality of two string slices.
pub fn str_eq(a: &str, b: &str) -> (r: bool)
    ensures
        r == (a@ == b@),
{
    let x = a.to_owned();
    let y = b.to_owned();
    x == y
}

/// Whether `name` occurs in `table`.
pub fn table_contains(table: &Vec<&str>, name: &str) -> (r: bool)
    ensures
        r == names_of(table@).contains(name@),
{
    let mut i: usize = 0;
    while i < table.len()
        invariant
            0 <= i <= table.len(),
            forall|j: int| 0 <= j < i ==> table@[j]@ != name@,
        decreases table.len() - i,
    {
        if str_eq(table[i], name) {
            assert(names_of(table@)[i as int] == name@);
            return true;
        }
        i = i + 1;
    }
    proof {
        if names_of(table@).contains(name@) {
            let k = choose|k: int| 0 <= k < names_of(table@).len() && names_of(table@)[k] == name@;
            assert(table@[k]@ == name@);
        }
    }
    false
}

} // verus!
