//! Which files the player accepts, decided from the path alone.
//!
//! A path is playable when the extension of its file name, compared without
//! regard to ASCII case, is one of `mp3`, `wav`, `m4a`, `ogg`, `flac`. The
//! file name is what follows the last path separator; its extension is what
//! follows the last dot, and a name whose only dot is its first character
//! (a hidden file) has no extension.

use vstd::prelude::*;

verus! {

/// The index of the last occurrence of `c` in `s`, or `-1` when `c` does not
/// occur.
pub open spec fn last_pos(s: Seq<char>, c: char) -> int
    decreases s.len(),
{
    if s.len() == 0 {
        -1
    } else if s[s.len() - 1] == c {
        s.len() - 1
    } else {
        last_pos(s.drop_last(), c)
    }
}

/// The file-name part of `path`: everything after the last separator.
pub open spec fn spec_file_name(path: Seq<char>) -> Seq<char> {
    path.subrange(last_pos(path, '/') + 1, path.len() as int)
}

/// The extension of `path`: what follows the last dot of its file name.
/// A name without a dot, or whose only dot starts it, has none.
pub open spec fn spec_extension(path: Seq<char>) -> Option<Seq<char>> {
    let name = spec_file_name(path);
    let d = last_pos(name, '.');
    if d <= 0 {
        None
    } else {
        Some(name.subrange(d + 1, name.len() as int))
    }
}

/// `c` with an ASCII capital letter folded to its small form.
pub open spec fn lower_char(c: char) -> char {
    if c == 'A' {
        'a'
    } else if c == 'B' {
        'b'
    } else if c == 'C' {
        'c'
    } else if c == 'D' {
        'd'
    } else if c == 'E' {
        'e'
    } else if c == 'F' {
        'f'
    } else if c == 'G' {
        'g'
    } else if c == 'H' {
        'h'
    } else if c == 'I' {
        'i'
    } else if c == 'J' {
        'j'
    } else if c == 'K' {
        'k'
    } else if c == 'L' {
        'l'
    } else if c == 'M' {
        'm'
    } else if c == 'N' {
        'n'
    } else if c == 'O' {
        'o'
    } else if c == 'P' {
        'p'
    } else if c == 'Q' {
        'q'
    } else if c == 'R' {
        'r'
    } else if c == 'S' {
        's'
    } else if c == 'T' {
        't'
    } else if c == 'U' {
        'u'
    } else if c == 'V' {
        'v'
    } else if c == 'W' {
        'w'
    } else if c == 'X' {
        'x'
    } else if c == 'Y' {
        'y'
    } else if c == 'Z' {
        'z'
    } else {
        c
    }
}

/// `s` with every ASCII capital letter folded to its small form.
pub open spec fn lower_seq(s: Seq<char>) -> Seq<char> {
    s.map_values(|c: char| lower_char(c))
}

/// Whether `ext`, compared without regard to ASCII case, is one of the
/// accepted audio extensions.
pub open spec fn is_audio_ext(ext: Seq<char>) -> bool {
    ||| lower_seq(ext) == seq!['m', 'p', '3']
    ||| lower_seq(ext) == seq!['w', 'a', 'v']
    ||| lower_seq(ext) == seq!['m', '4', 'a']
    ||| lower_seq(ext) == seq!['o', 'g', 'g']
    ||| lower_seq(ext) == seq!['f', 'l', 'a', 'c']
}

/// Whether `path` names a file the player accepts.
pub open spec fn spec_is_audio_path(path: Seq<char>) -> bool {
    match spec_extension(path) {
        Some(e) => is_audio_ext(e),
        None => false,
    }
}

proof fn lemma_last_pos_bounds(s: Seq<char>, c: char)
    ensures
        -1 <= last_pos(s, c) < s.len(),
    decreases s.len(),
{
    if s.len() > 0 && s[s.len() - 1] != c {
        lemma_last_pos_bounds(s.drop_last(), c);
    }
}

proof fn lemma_last_pos_push(s: Seq<char>, c: char, x: char)
    ensures
        last_pos(s.push(x), c) == if x == c {
            s.len() as int
        } else {
            last_pos(s, c)
        },
{
    assert(s.push(x).drop_last() =~= s);
    assert(s.push(x)[s.push(x).len() - 1] == x);
}

/// `c` with an ASCII capital letter folded to its small form.
pub fn lower_char_exec(c: char) -> (r: char)
    ensures
        r == lower_char(c),
{
    match c {
        'A' => 'a',
        'B' => 'b',
        'C' => 'c',
        'D' => 'd',
        'E' => 'e',
        'F' => 'f',
        'G' => 'g',
        'H' => 'h',
        'I' => 'i',
        'J' => 'j',
        'K' => 'k',
        'L' => 'l',
        'M' => 'm',
        'N' => 'n',
        'O' => 'o',
        'P' => 'p',
        'Q' => 'q',
        'R' => 'r',
        'S' => 's',
        'T' => 't',
        'U' => 'u',
        'V' => 'v',
        'W' => 'w',
        'X' => 'x',
        'Y' => 'y',
        'Z' => 'z',
        _ => c,
    }
}

/// The characters of `s`, in order.
fn chars_of(s: &String) -> (v: Vec<char>)
    ensures
        v@ == s@,
{
    let n = s.as_str().unicode_len();
    let mut v: Vec<char> = Vec::new();
    let mut i: usize = 0;
    while i < n
        invariant
            i <= n,
            n == s@.len(),
            v@ =~= s@.subrange(0, i as int),
        decreases n - i,
    {
        let c = s.as_str().get_char(i);
        v.push(c);
        proof {
            assert(v@ =~= s@.subrange(0, i + 1 as int));
        }
        i = i + 1;
    }
    proof {
        assert(v@ =~= s@);
    }
    v
}

/// The index of the last occurrence of `c` in `v[from..]`, if any, as an
/// absolute index into `v`.
fn find_last(v: &Vec<char>, from: usize, c: char) -> (r: Option<usize>)
    requires
        from <= v@.len(),
    ensures
        match r {
            Some(i) => from <= i < v@.len() && last_pos(v@.subrange(from as int, v@.len() as int), c)
                == i - from,
            None => last_pos(v@.subrange(from as int, v@.len() as int), c) == -1,
        },
{
    let n = v.len();
    let mut found = false;
    let mut idx: usize = 0;
    let mut i: usize = from;
    proof {
        assert(v@.subrange(from as int, from as int) =~= Seq::<char>::empty());
    }
    while i < n
        invariant
            from <= i <= n,
            n == v@.len(),
            found ==> from <= idx < i && last_pos(v@.subrange(from as int, i as int), c) == idx
                - from,
            !found ==> last_pos(v@.subrange(from as int, i as int), c) == -1,
        decreases n - i,
    {
        proof {
            assert(v@.subrange(from as int, i + 1 as int) =~= v@.subrange(
                from as int,
                i as int,
            ).push(v@[i as int]));
            lemma_last_pos_push(v@.subrange(from as int, i as int), c, v@[i as int]);
        }
        if v[i] == c {
            found = true;
            idx = i;
        }
        i = i + 1;
    }
    if found {
        Some(idx)
    } else {
        None
    }
}

/// Accepts `path` when it names a playable audio file: the validated path
/// comes back unchanged, and a path whose extension is not an accepted audio
/// extension is refused.
pub fn verify_path_extension(path: &String) -> (r: Option<String>)
    ensures
        r is Some <==> spec_is_audio_path(path@),
        r is Some ==> r->0@ == path@,
{
    let v = chars_of(path);
    let n = v.len();
    proof {
        lemma_last_pos_bounds(path@, '/');
    }
    let slash = find_last(&v, 0, '/');
    let start: usize = match slash {
        Some(i) => i + 1,
        None => 0,
    };
    proof {
        assert(v@.subrange(0, n as int) =~= path@);
        assert(spec_file_name(path@) =~= path@.subrange(start as int, n as int));
    }
    let dot = find_last(&v, start, '.');
    let ghost name = spec_file_name(path@);
    match dot {
        None => {
            proof {
                assert(spec_extension(path@) is None);
            }
            None
        },
        Some(d) => {
            if d == start {
                proof {
                    assert(last_pos(name, '.') == 0);
                    assert(spec_extension(path@) is None);
                }
                None
            } else {
                let ghost ext = name.subrange(d - start + 1, name.len() as int);
                proof {
                    assert(last_pos(name, '.') == d - start > 0);
                    assert(spec_extension(path@) == Some(ext));
                }
                // Fold the extension's case, then compare it against each
                // accepted extension.
                let mut low: Vec<char> = Vec::new();
                let mut i: usize = d + 1;
                while i < n
                    invariant
                        d + 1 <= i <= n,
                        n == v@.len(),
                        v@ == path@,
                        d + 1 <= n,
                        start <= d,
                        ext == path@.subrange(d + 1, n as int),
                        low@.len() == i - d - 1,
                        forall|j: int|
                            0 <= j < low@.len() ==> low@[j] == lower_char(ext[j]),
                    decreases n - i,
                {
                    low.push(lower_char_exec(v[i]));
                    i = i + 1;
                }
                proof {
                    assert(low@ =~= lower_seq(ext));
                }
                let m = low.len();
                let is_audio = (m == 3 && low[0] == 'm' && low[1] == 'p' && low[2] == '3') || (m
                    == 3 && low[0] == 'w' && low[1] == 'a' && low[2] == 'v') || (m == 3 && low[0]
                    == 'm' && low[1] == '4' && low[2] == 'a') || (m == 3 && low[0] == 'o' && low[1]
                    == 'g' && low[2] == 'g') || (m == 4 && low[0] == 'f' && low[1] == 'l' && low[2]
                    == 'a' && low[3] == 'c');
                proof {
                    if is_audio {
                        if low@.len() == 3 && low@[0] == 'm' && low@[1] == 'p' && low@[2] == '3' {
                            assert(low@ =~= seq!['m', 'p', '3']);
                        } else if low@.len() == 3 && low@[0] == 'w' && low@[1] == 'a' && low@[2]
                            == 'v' {
                            assert(low@ =~= seq!['w', 'a', 'v']);
                        } else if low@.len() == 3 && low@[0] == 'm' && low@[1] == '4' && low@[2]
                            == 'a' {
                            assert(low@ =~= seq!['m', '4', 'a']);
                        } else if low@.len() == 3 && low@[0] == 'o' && low@[1] == 'g' && low@[2]
                            == 'g' {
                            assert(low@ =~= seq!['o', 'g', 'g']);
                        } else {
                            assert(low@ =~= seq!['f', 'l', 'a', 'c']);
                        }
                        assert(is_audio_ext(ext));
                    } else {
                        assert(!is_audio_ext(ext)) by {
                            if lower_seq(ext) == seq!['m', 'p', '3'] {
                                assert(low@[0] == 'm' && low@[1] == 'p' && low@[2] == '3');
                            } else if lower_seq(ext) == seq!['w', 'a', 'v'] {
                                assert(low@[0] == 'w' && low@[1] == 'a' && low@[2] == 'v');
                            } else if lower_seq(ext) == seq!['m', '4', 'a'] {
                                assert(low@[0] == 'm' && low@[1] == '4' && low@[2] == 'a');
                            } else if lower_seq(ext) == seq!['o', 'g', 'g'] {
                                assert(low@[0] == 'o' && low@[1] == 'g' && low@[2] == 'g');
                            } else if lower_seq(ext) == seq!['f', 'l', 'a', 'c'] {
                                assert(low@[0] == 'f' && low@[1] == 'l' && low@[2] == 'a' && low@[3]
                                    == 'c');
                            }
                        }
                    }
                }
                if is_audio {
                    Some(path.clone())
                } else {
                    None
                }
            }
        },
    }
}

/// The sample-rate label shown in the panel: the rate followed by `k`, or
/// empty when the backing file reports none.
pub open spec fn spec_sample_label(rate: Option<u32>) -> Seq<char> {
    match rate {
        Some(n) => crate::display::spec_decimal(n as int) + "k"@,
        None => Seq::<char>::empty(),
    }
}

/// The sample-rate label shown in the panel, as `spec_sample_label` says.
pub fn get_sample_rate(rate: Option<u32>) -> (r: String)
    ensures
        r@ == spec_sample_label(rate),
{
    match rate {
        Some(n) => {
            let mut s = crate::display::u64_to_string(n as u64);
            s.append("k");
            s
        },
        None => String::new(),
    }
}

} // verus!
