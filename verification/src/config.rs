use vstd::prelude::*;

verus! {

/// The path that results from joining `part` onto `base`, as a Unix path
/// buffer does: an absolute `part` replaces `base`; otherwise one `/` goes
/// between them unless `base` is empty or already ends with one.
pub open spec fn path_pushed(base: Seq<char>, part: Seq<char>) -> Seq<char> {
    if part.len() > 0 && part[0] == '/' {
        part
    } else if base.len() == 0 || base.last() == '/' {
        base + part
    } else {
        base + seq!['/'] + part
    }
}

/// Joining keeps both parts whole and puts exactly one `/` between them: an
/// absolute part stands alone; onto an empty base the part is taken as it is;
/// otherwise the result is the base, then a `/` unless the base already ends
/// with one, then the part.
pub proof fn lemma_path_join(base: Seq<char>, part: Seq<char>)
    ensures
        part.len() > 0 && part[0] == '/' ==> path_pushed(base, part) == part,
        !(part.len() > 0 && part[0] == '/') ==> {
            let r = path_pushed(base, part);
            let gap = r.len() - base.len() - part.len();
            &&& r.subrange(0, base.len() as int) == base
            &&& r.subrange(r.len() - part.len(), r.len() as int) == part
            &&& base.len() == 0 ==> r == part
            &&& base.len() > 0 && base.last() == '/' ==> gap == 0
            &&& base.len() > 0 && base.last() != '/' ==> gap == 1 && r[base.len() as int] == '/'
        },
{
    if !(part.len() > 0 && part[0] == '/') {
        let r = path_pushed(base, part);
        if base.len() > 0 && base.last() != '/' {
            assert(r == base + seq!['/'] + part);
            assert(r.subrange(0, base.len() as int) =~= base);
            assert(r.subrange(r.len() - part.len(), r.len() as int) =~= part);
        } else {
            assert(r == base + part);
            assert(r.subrange(0, base.len() as int) =~= base);
            assert(r.subrange(r.len() - part.len(), r.len() as int) =~= part);
        }
    }
}

/// Joins one path component onto a path.
pub fn push_path(base: String, part: &str) -> (r: String)
    ensures
        r@ == path_pushed(base@, part@),
{
    proof {
        reveal_strlit("/");
    }
    let part_len = part.unicode_len();
    if part_len > 0 && part.get_char(0) == '/' {
        return part.to_owned();
    }
    let base_len = base.as_str().unicode_len();
    let mut r = base;
    if base_len == 0 || r.as_str().get_char(base_len - 1) == '/' {
        r.append(part);
    } else {
        r.append("/");
        r.append(part);
        assert(r@ =~= base@ + seq!['/'] + part@);
    }
    r
}

/// The per-user configuration directory under the home directory `home`
/// (`$HOME/.config`); none when the home directory is unknown.
pub fn config_base_dir(home: Option<String>) -> (r: Option<String>)
    ensures
        match home {
            Some(h) => r matches Some(p) && p@ == path_pushed(h@, ".config"@),
            None => r is None,
        },
{
    match home {
        Some(h) => Some(push_path(h, ".config")),
        None => None,
    }
}

/// Where the configuration file lives below the configuration directory
/// `base`: `<base>/stellui/config.toml`; none when there is no such directory.
pub fn config_path(base: Option<String>) -> (r: Option<String>)
    ensures
        match base {
            Some(b) => r matches Some(p) && p@ == path_pushed(
                path_pushed(b@, "stellui"@),
                "config.toml"@,
            ),
            None => r is None,
        },
{
    match base {
        Some(b) => Some(push_path(push_path(b, "stellui"), "config.toml")),
        None => None,
    }
}

/// The configuration file is always `stellui/config.toml` directly below the
/// configuration directory, whatever that directory is called.
pub proof fn lemma_config_file_name(base: Seq<char>)
    ensures
        ({
            let dir = path_pushed(base, "stellui"@);
            &&& path_pushed(dir, "config.toml"@) == dir + "/config.toml"@
            &&& dir.len() >= 7
            &&& dir.subrange(dir.len() - 7, dir.len() as int) == "stellui"@
        }),
{
    reveal_strlit("stellui");
    reveal_strlit("config.toml");
    reveal_strlit("/config.toml");
    let dir = path_pushed(base, "stellui"@);
    assert(dir.subrange(dir.len() - 7, dir.len() as int) =~= "stellui"@);
    assert(dir.last() == 'i');
    assert(path_pushed(dir, "config.toml"@) =~= dir + "/config.toml"@);
}

/// The entries that are in effect: the configured ones when there are any,
/// the built-in defaults otherwise.
pub fn configured_or_default<T>(configured: Vec<T>, defaults: Vec<T>) -> (r: Vec<T>)
    ensures
        r@ == (if configured@.len() > 0 { configured@ } else { defaults@ }),
{
    if configured.len() > 0 {
        configured
    } else {
        defaults
    }
}

/// Raw values given for `--lat`, `--lon` and `--height` on the command line.
pub struct LocationArgs {
    pub lat: Option<String>,
    pub lon: Option<String>,
    pub height: Option<String>,
}

pub struct LocationArgsView {
    pub lat: Option<Seq<char>>,
    pub lon: Option<Seq<char>>,
    pub height: Option<Seq<char>>,
}

pub open spec fn opt_str_view(o: Option<String>) -> Option<Seq<char>> {
    match o {
        Some(s) => Some(s@),
        None => None,
    }
}

impl View for LocationArgs {
    type V = LocationArgsView;

    open spec fn view(&self) -> LocationArgsView {
        LocationArgsView {
            lat: opt_str_view(self.lat),
            lon: opt_str_view(self.lon),
            height: opt_str_view(self.height),
        }
    }
}

pub open spec fn no_location_args() -> LocationArgsView {
    LocationArgsView { lat: None, lon: None, height: None }
}

/// Scanning `args` from position `i` with the values found so far in `acc`:
/// a flag that has a following argument takes it as its value and both are
/// consumed; any other argument is skipped. A later flag overrides an
/// earlier one.
pub open spec fn scan_location_args(
    args: Seq<Seq<char>>,
    i: int,
    acc: LocationArgsView,
) -> LocationArgsView
    decreases args.len() - i,
{
    if i >= args.len() {
        acc
    } else if i + 1 < args.len() && args[i] == "--lat"@ {
        scan_location_args(
            args,
            i + 2,
            LocationArgsView { lat: Some(args[i + 1]), lon: acc.lon, height: acc.height },
        )
    } else if i + 1 < args.len() && args[i] == "--lon"@ {
        scan_location_args(
            args,
            i + 2,
            LocationArgsView { lat: acc.lat, lon: Some(args[i + 1]), height: acc.height },
        )
    } else if i + 1 < args.len() && args[i] == "--height"@ {
        scan_location_args(
            args,
            i + 2,
            LocationArgsView { lat: acc.lat, lon: acc.lon, height: Some(args[i + 1]) },
        )
    } else {
        scan_location_args(args, i + 1, acc)
    }
}

pub open spec fn args_view(args: Seq<String>) -> Seq<Seq<char>> {
    args.map_values(|s: String| s@)
}

/// Finds the location overrides on a command line whose first element is the
/// program name.
pub fn location_args(args: &Vec<String>) -> (r: LocationArgs)
    ensures
        r@ == scan_location_args(args_view(args@), 1, no_location_args()),
{
    let ghost a = args_view(args@);
    let lat_flag = "--lat".to_owned();
    let lon_flag = "--lon".to_owned();
    let height_flag = "--height".to_owned();
    let mut r = LocationArgs { lat: None, lon: None, height: None };
    let mut i: usize = 1;
    while i < args.len()
        invariant
            i >= 1,
            a == args_view(args@),
            lat_flag@ == "--lat"@,
            lon_flag@ == "--lon"@,
            height_flag@ == "--height"@,
            scan_location_args(a, 1, no_location_args()) == scan_location_args(a, i as int, r@),
        decreases args.len() - i,
    {
        let has_value = i + 1 < args.len();
        if has_value && args[i] == lat_flag {
            r.lat = Some(args[i + 1].clone());
            i = i + 2;
        } else if has_value && args[i] == lon_flag {
            r.lon = Some(args[i + 1].clone());
            i = i + 2;
        } else if has_value && args[i] == height_flag {
            r.height = Some(args[i + 1].clone());
            i = i + 2;
        } else {
            i = i + 1;
        }
    }
    r
}

} // verus!
