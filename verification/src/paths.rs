use vstd::prelude::*;

verus! {

/// The settings file read when none is given: `settings.json` in the directory of the
/// program.
pub open spec fn default_settings_file(program_dir: Seq<char>) -> Seq<char> {
    program_dir + "/"@ + "settings.json"@
}

/// The file that holds the health record: `data.json` in `dir`, or in the directory of
/// the program when no directory is given.
pub open spec fn data_file(dir: Option<Seq<char>>, program_dir: Seq<char>) -> Seq<char> {
    let base = match dir {
        Some(d) => d,
        None => program_dir,
    };
    base + "/"@ + "data.json"@
}

/// The settings file to read: the one given, or `settings.json` beside the program,
/// whose directory is `program_dir`.
pub fn settings_file_path(path: Option<String>, program_dir: String) -> (r: String)
    ensures
        r@ == match path {
            Some(p) => p@,
            None => default_settings_file(program_dir@),
        },
        path matches Some(p) ==> r@ == p@,
        path is None ==> r@ == program_dir@ + "/settings.json"@,
{
    proof {
        reveal_strlit("/");
        reveal_strlit("settings.json");
        reveal_strlit("/settings.json");
        assert("/"@ + "settings.json"@ =~= "/settings.json"@);
        assert(program_dir@ + "/"@ + "settings.json"@ =~= program_dir@ + "/settings.json"@);
    }
    match path {
        Some(right) => right,
        None => {
            let mut p = program_dir;
            p.append("/");
            p.append("settings.json");
            p
        },
    }
}

/// The path of the data file that holds the health record, in `dir` or else beside the
/// program, whose directory is `program_dir`.
pub fn data_file_path(dir: Option<String>, program_dir: String) -> (r: String)
    ensures
        r@ == data_file(crate::types::opt_string_view(dir), program_dir@),
        dir matches Some(d) ==> r@ == d@ + "/data.json"@,
        dir is None ==> r@ == program_dir@ + "/data.json"@,
{
    proof {
        reveal_strlit("/");
        reveal_strlit("data.json");
        reveal_strlit("/data.json");
        assert("/"@ + "data.json"@ =~= "/data.json"@);
        assert(forall|b: Seq<char>| b + "/"@ + "data.json"@ =~= #[trigger] (b + "/data.json"@));
    }
    let mut p = match dir {
        Some(right) => right,
        None => program_dir,
    };
    p.append("/");
    p.append("data.json");
    p
}

/// The status endpoint of the node at `url`.
pub fn status_url(url: &str) -> (r: String)
    ensures
        r@ == url@ + "/v2/status"@,
{
    let mut u = url.to_owned();
    u.append("/v2/status");
    u
}

} // verus!
