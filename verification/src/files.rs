//! Where the files of the pool lie and how one of them is filled.

use vstd::prelude::*;
use vstd::string::StringExecFns;
use crate::config::{Config, ConfigError};

verus! {

/// The directory that holds the files of the pool.
pub const SWAPFC_PATH: &'static str = "/var/lib/systemd-swap/swapfc";

/// The directory under which the sentinel lies.
pub const RUN_PATH: &'static str = "/run/systemd/swap";

/// Permissions of a swap file: read and write for the owner, nothing else.
pub const SWAPFILE_MODE: u32 = 0o600;

/// The decimal digit for a value below ten.
pub open spec fn digit(d: nat) -> char {
    if d == 0 {
        '0'
    } else if d == 1 {
        '1'
    } else if d == 2 {
        '2'
    } else if d == 3 {
        '3'
    } else if d == 4 {
        '4'
    } else if d == 5 {
        '5'
    } else if d == 6 {
        '6'
    } else if d == 7 {
        '7'
    } else if d == 8 {
        '8'
    } else {
        '9'
    }
}

/// A number written in decimal, without sign or leading zeroes.
pub open spec fn decimal(n: nat) -> Seq<char>
    decreases n,
{
    if n < 10 {
        seq![digit(n)]
    } else {
        decimal(n / 10).push(digit(n % 10))
    }
}

/// A decimal has at least one digit.
pub proof fn lemma_decimal_not_empty(n: nat)
    ensures
        decimal(n).len() >= 1,
    decreases n,
{
    if n >= 10 {
        lemma_decimal_not_empty(n / 10);
    }
}

/// Different numbers are written differently: no two files of the pool share
/// a name.
pub proof fn lemma_decimal_injective(a: nat, b: nat)
    requires
        decimal(a) == decimal(b),
    ensures
        a == b,
    decreases a,
{
    if a < 10 && b < 10 {
        assert(decimal(a)[0] == digit(a));
        assert(decimal(b)[0] == digit(b));
    } else if a < 10 {
        lemma_decimal_not_empty(b / 10);
        assert(decimal(a).len() == 1);
        assert(decimal(b).len() == decimal(b / 10).len() + 1);
    } else if b < 10 {
        lemma_decimal_not_empty(a / 10);
        assert(decimal(b).len() == 1);
        assert(decimal(a).len() == decimal(a / 10).len() + 1);
    } else {
        assert(decimal(a).last() == digit(a % 10));
        assert(decimal(b).last() == digit(b % 10));
        assert(decimal(a).drop_last() =~= decimal(a / 10));
        assert(decimal(b).drop_last() =~= decimal(b / 10));
        lemma_decimal_injective(a / 10, b / 10);
    }
}

/// Number of writes of `buf` bytes that it takes to write at least `chunk`
/// bytes.
pub open spec fn write_count(chunk: nat, buf: nat) -> nat
    recommends
        buf > 0,
{
    ((chunk + buf - 1) / (buf as int)) as nat
}

/// The writes cover the chunk, and none of them is superfluous.
pub proof fn lemma_write_count_covers(chunk: nat, buf: nat)
    requires
        buf > 0,
    ensures
        write_count(chunk, buf) * buf >= chunk,
        write_count(chunk, buf) * buf < chunk + buf,
{
    let w = (chunk + buf - 1) / (buf as int);
    assert(w * buf <= chunk + buf - 1 < w * buf + buf && w >= 0) by (nonlinear_arith)
        requires
            buf > 0,
            chunk >= 0,
            w == (chunk + buf - 1) / (buf as int),
    ;
}

/// No smaller number of writes covers the chunk.
pub proof fn lemma_write_count_least(chunk: nat, buf: nat, n: nat)
    requires
        buf > 0,
        n * buf >= chunk,
    ensures
        n >= write_count(chunk, buf),
{
    lemma_write_count_covers(chunk, buf);
    let w = write_count(chunk, buf);
    if n < w {
        assert(n * buf <= w * buf - buf) by (nonlinear_arith)
            requires
                0 <= n <= w - 1,
                buf > 0,
        ;
    }
}

/// How a swap file is to be made.
#[derive(Debug, PartialEq, Eq)]
pub struct FilePlan {
    /// Path of the file.
    pub path: String,
    /// Permissions to create the file with.
    pub mode: u32,
    /// Number of writes.
    pub writes: usize,
    /// Zero bytes per write.
    pub write_len: usize,
}

/// A digit as a string of its own.
fn digit_str(d: u8) -> (s: &'static str)
    requires
        d < 10,
    ensures
        s@ == seq![digit(d as nat)],
{
    proof {
        reveal_strlit("0");
        reveal_strlit("1");
        reveal_strlit("2");
        reveal_strlit("3");
        reveal_strlit("4");
        reveal_strlit("5");
        reveal_strlit("6");
        reveal_strlit("7");
        reveal_strlit("8");
        reveal_strlit("9");
    }
    let s = match d {
        0 => "0",
        1 => "1",
        2 => "2",
        3 => "3",
        4 => "4",
        5 => "5",
        6 => "6",
        7 => "7",
        8 => "8",
        _ => "9",
    };
    assert(s@ =~= seq![digit(d as nat)]);
    s
}

/// The name of a file of the pool: its index in decimal, nothing else.
pub fn file_name(index: u8) -> (name: String)
    ensures
        name@ == decimal(index as nat),
{
    let mut name = String::new();
    if index >= 100 {
        name.append(digit_str(index / 100));
    }
    if index >= 10 {
        name.append(digit_str((index / 10) % 10));
    }
    name.append(digit_str(index % 10));
    proof {
        reveal_with_fuel(decimal, 3);
        assert(name@ =~= decimal(index as nat));
    }
    name
}

/// The path of a file of the pool: the pool directory, a slash, the name of
/// the file.
pub fn swapfile_path(pool_dir: &str, index: u8) -> (path: String)
    ensures
        path@ == pool_dir@ + seq!['/'] + decimal(index as nat),
{
    proof {
        reveal_strlit("/");
    }
    let mut path = String::from_str(pool_dir);
    path.append("/");
    let name = file_name(index);
    path.append(name.as_str());
    assert(path@ =~= pool_dir@ + seq!['/'] + decimal(index as nat)) by {
        assert("/"@ =~= seq!['/']);
    }
    path
}

/// The path of the sentinel below a run directory.
pub fn lock_path(run_dir: &str) -> (path: String)
    ensures
        path@ == run_dir@ + "/swapfc/.lock"@,
{
    let mut path = String::from_str(run_dir);
    path.append("/swapfc/.lock");
    path
}

/// Plans a swap file: its path, its permissions, and the zero-filled writes
/// of one buffer each that bring it to the configured size.  The last write
/// is a whole buffer too.  With an empty buffer there is no plan.
pub fn prepare_swapfile(config: &Config, pool_dir: &str, file: u8) -> (res: Result<
    FilePlan,
    ConfigError,
>)
    ensures
        res is Ok <==> config.buf_size > 0,
        res matches Err(e) ==> e == ConfigError::EmptyBuffer,
        res matches Ok(plan) ==> {
            &&& plan.path@ == pool_dir@ + seq!['/'] + decimal(file as nat)
            &&& plan.mode == SWAPFILE_MODE
            &&& plan.write_len == config.buf_size
            &&& plan.writes == write_count(config.chunk_size as nat, config.buf_size as nat)
            &&& plan.writes * plan.write_len >= config.chunk_size
            &&& plan.writes * plan.write_len < config.chunk_size + config.buf_size
        },
{
    if config.buf_size == 0 {
        return Err(ConfigError::EmptyBuffer);
    }
    let chunk: usize = config.chunk_size;
    let buf: usize = config.buf_size;
    let full: usize = chunk / buf;
    let rest: usize = chunk % buf;
    proof {
        lemma_write_count_covers(chunk as nat, buf as nat);
        assert(chunk == full * buf + rest && 0 <= rest < buf) by (nonlinear_arith)
            requires
                buf > 0,
                full == chunk / buf,
                rest == chunk % buf,
        ;
        if rest != 0 {
            assert(full * buf >= full * 2) by (nonlinear_arith)
                requires
                    buf >= 2,
                    full >= 0,
            ;
        }
    }
    let writes: usize = if rest == 0 {
        full
    } else {
        full + 1
    };
    proof {
        let w = write_count(chunk as nat, buf as nat);
        assert(writes * buf >= chunk && writes * buf < chunk + buf) by (nonlinear_arith)
            requires
                chunk == full * buf + rest,
                0 <= rest < buf,
                writes == (if rest == 0 {
                    full as int
                } else {
                    full + 1
                }),
        ;
        assert(writes == w) by (nonlinear_arith)
            requires
                buf > 0,
                writes * buf >= chunk,
                writes * buf < chunk + buf,
                w * buf >= chunk,
                w * buf < chunk + buf,
        ;
    }
    Ok(FilePlan { path: swapfile_path(pool_dir, file), mode: SWAPFILE_MODE, writes, write_len: buf })
}

} // verus!
