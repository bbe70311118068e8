use vstd::prelude::*;
use vstd::string::StringExecFns;
use crate::app::error::{runtime_error_text, RuntimeError};
use crate::infrastructure::eventbus::message::{i32_bits, le_u32_bytes};
use crate::text::{decimal, push_decimal};

verus! {

/// Whether `c` has the Unicode `White_Space` property, which is what
/// `char::is_whitespace` tests.
pub open spec fn is_white_space(c: char) -> bool {
    let n = c as u32;
    ||| 0x09 <= n <= 0x0D
    ||| n == 0x20
    ||| n == 0x85
    ||| n == 0xA0
    ||| n == 0x1680
    ||| 0x2000 <= n <= 0x200A
    ||| n == 0x2028
    ||| n == 0x2029
    ||| n == 0x202F
    ||| n == 0x205F
    ||| n == 0x3000
}

/// The text without its leading white space.
pub open spec fn trim_start(s: Seq<char>) -> Seq<char>
    decreases s.len(),
{
    if s.len() > 0 && is_white_space(s[0]) {
        trim_start(s.drop_first())
    } else {
        s
    }
}

/// The text without its trailing white space.
pub open spec fn trim_end(s: Seq<char>) -> Seq<char>
    decreases s.len(),
{
    if s.len() > 0 && is_white_space(s.last()) {
        trim_end(s.drop_last())
    } else {
        s
    }
}

/// What `str::trim` leaves of a text: the text without leading and trailing
/// white space.
pub open spec fn spec_trim(s: Seq<char>) -> Seq<char> {
    trim_end(trim_start(s))
}

/// Calls `str::trim`, which std documents as removing the leading and
/// trailing characters that have the Unicode `White_Space` property.
#[verifier::external_body]
fn trim_text(s: &str) -> (r: &str)
    ensures
        r@ == spec_trim(s@),
{
    s.trim()
}

/// An environment id as the kernel uses it: trimmed of surrounding white
/// space.
pub fn normalize_env_id(env_uuid: &str) -> (id: String)
    ensures
        id@ == spec_trim(env_uuid@),
{
    String::from_str(trim_text(env_uuid))
}

/// Calls `rand::random::<u64>()`. The value comes from the thread's random
/// generator, so nothing is claimed of it. The call panics only when the
/// operating system cannot seed that generator, which no argument controls.
#[verifier::external_body]
fn random_u64() -> u64 {
    rand::random::<u64>()
}

/// The delay before launching the `index`-th environment of a batch, given
/// a random draw: 50 ms per place in the batch plus up to 199 ms of jitter.
pub open spec fn spec_launch_delay(index: nat, random: u64) -> int {
    index * 50 + random % 200
}

/// The delay, in milliseconds, before launching the `index`-th environment
/// of a batch, given a random draw.
pub fn launch_delay_from(index: usize, random: u64) -> (d: u64)
    requires
        index < 0x1_0000_0000_0000,
    ensures
        d == spec_launch_delay(index as nat, random),
{
    (index as u64) * 50 + random % 200
}

/// The delay, in milliseconds, before launching the `index`-th environment
/// of a batch: staggered by place, with random jitter below 200 ms.
pub fn launch_delay_ms(index: usize) -> (d: u64)
    requires
        index < 0x1_0000_0000_0000,
    ensures
        index * 50 <= d < index * 50 + 200,
{
    launch_delay_from(index, random_u64())
}

/// The error for an environment that is not connected.
pub fn env_not_connected(env_id: &str) -> (e: RuntimeError)
    ensures
        runtime_error_text(e) == Some("internal error: "@ + "环境 "@ + env_id@ + " 未连接"@),
{
    let mut t = String::from_str("环境 ");
    t.append(env_id);
    t.append(" 未连接");
    RuntimeError::Internal(t)
}

/// The payload of a window-bounds event: x, y, width and height as
/// little-endian 32-bit integers.
pub open spec fn spec_window_bounds_payload(x: i32, y: i32, width: i32, height: i32) -> Seq<u8> {
    le_u32_bytes(i32_bits(x)) + le_u32_bytes(i32_bits(y)) + le_u32_bytes(i32_bits(width))
        + le_u32_bytes(i32_bits(height))
}

fn push_i32_le(out: &mut Vec<u8>, v: i32)
    ensures
        final(out)@ == old(out)@ + le_u32_bytes(i32_bits(v)),
{
    let u: u32 = if v < 0 {
        ((v as i64) + 4294967296i64) as u32
    } else {
        v as u32
    };
    reveal(le_u32_bytes);
    out.push((u % 256) as u8);
    out.push(((u / 256) % 256) as u8);
    out.push(((u / 65536) % 256) as u8);
    out.push(((u / 16777216) % 256) as u8);
}

/// The payload that moves and resizes a browser window. A width or height
/// that is not positive is refused.
pub fn encode_window_bounds_payload(x: i32, y: i32, width: i32, height: i32) -> (r: Result<
    Vec<u8>,
    RuntimeError,
>)
    ensures
        (width <= 0 || height <= 0) ==> (r matches Err(e) && runtime_error_text(e) == Some(
            "internal error: "@ + "窗口宽高必须大于 0"@,
        )),
        (width > 0 && height > 0) ==> (r matches Ok(p) && p@ == spec_window_bounds_payload(
            x,
            y,
            width,
            height,
        )),
{
    if width <= 0 || height <= 0 {
        return Err(RuntimeError::Internal(String::from_str("窗口宽高必须大于 0")));
    }
    let mut payload: Vec<u8> = Vec::new();
    push_i32_le(&mut payload, x);
    push_i32_le(&mut payload, y);
    push_i32_le(&mut payload, width);
    push_i32_le(&mut payload, height);
    assert(payload@ =~= spec_window_bounds_payload(x, y, width, height));
    Ok(payload)
}

/// The texts of `dirs` joined by commas.
pub open spec fn comma_join(dirs: Seq<Seq<char>>) -> Seq<char>
    decreases dirs.len(),
{
    if dirs.len() == 0 {
        Seq::empty()
    } else if dirs.len() == 1 {
        dirs[0]
    } else {
        comma_join(dirs.drop_last()) + ","@ + dirs.last()
    }
}

/// An optional text's view.
pub open spec fn opt_str_view(o: Option<&str>) -> Option<Seq<char>> {
    match o {
        Some(s) => Some(s@),
        None => None,
    }
}

/// The command-line arguments a browser of an environment is launched with.
pub open spec fn spec_launch_args(
    env_id: Seq<char>,
    user_data_dir: Seq<char>,
    cdp_port: u16,
    display_id: Option<Seq<char>>,
    window_position: Option<Seq<char>>,
    window_size: Option<Seq<char>>,
    extension_dirs: Option<Seq<Seq<char>>>,
    debug_logging: bool,
) -> Seq<Seq<char>> {
    let base = seq![
        "--simprint-env-id="@ + env_id,
        "--user-data-dir="@ + user_data_dir,
        "--remote-debugging-port="@ + decimal(cdp_port as nat),
        "--remote-allow-origins=*"@,
        "--disable-skia-graphite"@,
    ];
    let logging = if debug_logging {
        seq!["--enable-logging"@, "--v=1"@]
    } else {
        Seq::empty()
    };
    let display = match display_id {
        Some(id) => seq!["--simprint-display-id="@ + id],
        None => Seq::empty(),
    };
    let position = match window_position {
        Some(p) => seq!["--window-position="@ + p],
        None => Seq::empty(),
    };
    let size = match window_size {
        Some(s) => seq!["--window-size="@ + s],
        None => Seq::empty(),
    };
    let extensions = match extension_dirs {
        Some(dirs) => if dirs.len() > 0 {
            seq!["--load-extension="@ + comma_join(dirs)]
        } else {
            Seq::empty()
        },
        None => Seq::empty(),
    };
    base + logging + display + position + size + extensions
}

fn prefixed(prefix: &str, value: &str) -> (s: String)
    ensures
        s@ == prefix@ + value@,
{
    String::from_str(prefix).concat(value)
}

/// The views of a list of strings.
pub open spec fn string_views(v: Seq<String>) -> Seq<Seq<char>> {
    v.map_values(|s: String| s@)
}

fn join_with_commas(dirs: &Vec<String>) -> (s: String)
    ensures
        s@ == comma_join(string_views(dirs@)),
{
    let mut s = String::new();
    let mut k: usize = 0;
    while k < dirs.len()
        invariant
            k <= dirs@.len(),
            s@ == comma_join(string_views(dirs@).subrange(0, k as int)),
        decreases dirs@.len() - k,
    {
        let ghost before = s@;
        if k > 0 {
            s.append(",");
        }
        s.append(dirs[k].as_str());
        k = k + 1;
        proof {
            let v = string_views(dirs@);
            let sub = v.subrange(0, k as int);
            assert(sub.drop_last() =~= v.subrange(0, k - 1));
            assert(sub.last() == dirs@[k - 1]@);
            if k == 1 {
                assert(v.subrange(0, 0) =~= Seq::<Seq<char>>::empty());
                assert(before =~= Seq::<char>::empty());
                assert(s@ =~= sub[0]);
            }
        }
    }
    assert(string_views(dirs@).subrange(0, dirs@.len() as int) =~= string_views(dirs@));
    s
}

/// The command-line arguments a browser of an environment is launched
/// with: its id, profile directory and debugging port, then logging flags
/// when `debug_logging`, then the display, window position and size that
/// were given, then the extensions to load, if there are any.
pub fn launch_args(
    env_id: &str,
    user_data_dir: &str,
    cdp_port: u16,
    display_id: Option<&str>,
    window_position: Option<&str>,
    window_size: Option<&str>,
    extension_dirs: Option<&Vec<String>>,
    debug_logging: bool,
) -> (args: Vec<String>)
    ensures
        string_views(args@) == spec_launch_args(
            env_id@,
            user_data_dir@,
            cdp_port,
            opt_str_view(display_id),
            opt_str_view(window_position),
            opt_str_view(window_size),
            match extension_dirs {
                Some(d) => Some(string_views(d@)),
                None => None,
            },
            debug_logging,
        ),
{
    let mut args: Vec<String> = Vec::new();
    args.push(prefixed("--simprint-env-id=", env_id));
    args.push(prefixed("--user-data-dir=", user_data_dir));
    let mut port_arg = String::from_str("--remote-debugging-port=");
    push_decimal(&mut port_arg, cdp_port as u64);
    args.push(port_arg);
    args.push(String::from_str("--remote-allow-origins=*"));
    args.push(String::from_str("--disable-skia-graphite"));
    let ghost base = string_views(args@);
    if debug_logging {
        args.push(String::from_str("--enable-logging"));
        args.push(String::from_str("--v=1"));
    }
    let ghost with_logging = string_views(args@);
    match display_id {
        Some(id) => args.push(prefixed("--simprint-display-id=", id)),
        None => {},
    }
    let ghost with_display = string_views(args@);
    match window_position {
        Some(p) => args.push(prefixed("--window-position=", p)),
        None => {},
    }
    let ghost with_position = string_views(args@);
    match window_size {
        Some(s) => args.push(prefixed("--window-size=", s)),
        None => {},
    }
    let ghost with_size = string_views(args@);
    match extension_dirs {
        Some(dirs) => {
            if dirs.len() > 0 {
                let joined = join_with_commas(dirs);
                args.push(prefixed("--load-extension=", joined.as_str()));
            }
        },
        None => {},
    }
    proof {
        let e = spec_launch_args(
            env_id@,
            user_data_dir@,
            cdp_port,
            opt_str_view(display_id),
            opt_str_view(window_position),
            opt_str_view(window_size),
            match extension_dirs {
                Some(d) => Some(string_views(d@)),
                None => None,
            },
            debug_logging,
        );
        assert(string_views(args@) =~= e);
    }
    args
}

/// One when an option is given, else none.
pub open spec fn given_count<T>(o: Option<T>) -> nat {
    if o is Some { 1 } else { 0 }
}

/// The arguments a browser is launched with carry, each on its own, every
/// option that was given: the fixed arguments come first, in order; then
/// the logging flags when logging is on, the display, the window position,
/// the window size and the extensions to load, each present exactly when
/// it was given, whatever else was given; and nothing more.
pub proof fn lemma_launch_args_carry_each_option(
    env_id: Seq<char>,
    user_data_dir: Seq<char>,
    cdp_port: u16,
    display_id: Option<Seq<char>>,
    window_position: Option<Seq<char>>,
    window_size: Option<Seq<char>>,
    extension_dirs: Option<Seq<Seq<char>>>,
    debug_logging: bool,
)
    ensures
        ({
            let a = spec_launch_args(
                env_id,
                user_data_dir,
                cdp_port,
                display_id,
                window_position,
                window_size,
                extension_dirs,
                debug_logging,
            );
            let extensions: nat = match extension_dirs {
                Some(ds) => if ds.len() > 0 { 1 } else { 0 },
                None => 0,
            };
            &&& a.len() == 5 + (if debug_logging { 2nat } else { 0nat }) + given_count(display_id)
                + given_count(window_position) + given_count(window_size) + extensions
            &&& a[0] == "--simprint-env-id="@ + env_id
            &&& a[1] == "--user-data-dir="@ + user_data_dir
            &&& a[2] == "--remote-debugging-port="@ + decimal(cdp_port as nat)
            &&& a[3] == "--remote-allow-origins=*"@
            &&& a[4] == "--disable-skia-graphite"@
            &&& debug_logging ==> a.contains("--enable-logging"@) && a.contains("--v=1"@)
            &&& (display_id matches Some(d) ==> a.contains("--simprint-display-id="@ + d))
            &&& (window_position matches Some(p) ==> a.contains("--window-position="@ + p))
            &&& (window_size matches Some(z) ==> a.contains("--window-size="@ + z))
            &&& (extension_dirs matches Some(ds) ==> (ds.len() > 0 ==> a.contains(
                "--load-extension="@ + comma_join(ds),
            )))
        }),
{
    let a = spec_launch_args(
        env_id,
        user_data_dir,
        cdp_port,
        display_id,
        window_position,
        window_size,
        extension_dirs,
        debug_logging,
    );
    let n0: int = 5;
    let n1: int = n0 + if debug_logging { 2int } else { 0int };
    let n2: int = n1 + given_count(display_id);
    let n3: int = n2 + given_count(window_position);
    let n4: int = n3 + given_count(window_size);
    if debug_logging {
        assert(a[5] == "--enable-logging"@);
        assert(a[6] == "--v=1"@);
    }
    if let Some(d) = display_id {
        assert(a[n1] == "--simprint-display-id="@ + d);
    }
    if let Some(p) = window_position {
        assert(a[n2] == "--window-position="@ + p);
    }
    if let Some(z) = window_size {
        assert(a[n3] == "--window-size="@ + z);
    }
    if let Some(ds) = extension_dirs {
        if ds.len() > 0 {
            assert(a[n4] == "--load-extension="@ + comma_join(ds));
        }
    }
}

} // verus!
