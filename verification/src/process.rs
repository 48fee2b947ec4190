use vstd::prelude::*;

verus! {

/// The bytes of the game's executable name `umamusume.exe`.
pub open spec fn game_exe_name() -> Seq<u8> {
    seq![117u8, 109u8, 97u8, 109u8, 117u8, 115u8, 117u8, 109u8, 101u8, 46u8, 101u8, 120u8, 101u8]
}

/// The bytes of the Steam version's executable name
/// `UmamusumePrettyDerby_Jpn.exe`, the executable that the installer patches.
pub open spec fn steam_exe_name() -> Seq<u8> {
    seq![
        85u8, 109u8, 97u8, 109u8, 117u8, 115u8, 117u8, 109u8, 101u8, 80u8, 114u8, 101u8, 116u8,
        116u8, 121u8, 68u8, 101u8, 114u8, 98u8, 121u8, 95u8, 74u8, 112u8, 110u8, 46u8, 101u8,
        120u8, 101u8,
    ]
}

/// Whether the NUL-terminated name stored in `buf` is `name`: the bytes
/// before the first NUL are exactly `name`, which holds no NUL itself.
pub open spec fn c_str_is(buf: Seq<u8>, name: Seq<u8>) -> bool {
    &&& name.len() < buf.len()
    &&& buf.take(name.len() as int) == name
    &&& buf[name.len() as int] == 0
}

/// Whether the NUL-terminated name in `buf` is `name`, where `name` holds no
/// NUL.
fn c_str_equals(buf: &[u8], name: &[u8]) -> (r: bool)
    ensures
        r == c_str_is(buf@, name@),
{
    if buf.len() <= name.len() {
        return false;
    }
    let n = name.len();
    let mut i: usize = 0;
    while i < n
        invariant
            n == name@.len(),
            n < buf@.len(),
            i <= n,
            forall|j: int| 0 <= j < i ==> buf@[j] == name@[j],
        decreases n - i,
    {
        if buf[i] != name[i] {
            assert(buf@.take(n as int)[i as int] != name@[i as int]);
            return false;
        }
        i = i + 1;
    }
    assert(buf@.take(n as int) =~= name@);
    buf[n] == 0
}

/// Whether a process entry's executable file name (the NUL-terminated bytes
/// of its `szExeFile` field) is the game's, compared byte for byte: either
/// `umamusume.exe` or the Steam version's `UmamusumePrettyDerby_Jpn.exe`.
pub fn is_game_process(exe_file: &[u8]) -> (r: bool)
    requires
        exists|i: int| 0 <= i < exe_file@.len() && exe_file@[i] == 0,
    ensures
        r == (c_str_is(exe_file@, game_exe_name()) || c_str_is(exe_file@, steam_exe_name())),
{
    let game: [u8; 13] = [117, 109, 97, 109, 117, 115, 117, 109, 101, 46, 101, 120, 101];
    let steam: [u8; 28] = [
        85, 109, 97, 109, 117, 115, 117, 109, 101, 80, 114, 101, 116, 116, 121, 68, 101, 114, 98,
        121, 95, 74, 112, 110, 46, 101, 120, 101,
    ];
    assert(game@ =~= game_exe_name());
    assert(steam@ =~= steam_exe_name());
    c_str_equals(exe_file, &game) || c_str_equals(exe_file, &steam)
}

} // verus!
