use vstd::prelude::*;
use crate::location::Location;

verus! {

/// The command line that moves the host shell to `path`, ending with the
/// newline that runs it.
pub open spec fn host_command(path: Seq<char>) -> Seq<char> {
    seq!['p', 'u', 's', 'h', 'd', ' '] + path + seq!['\n']
}

/// The line to type into the host shell so that it changes to `path`.
pub fn cwd_host(path: &Location) -> (r: String)
    ensures
        r@ == host_command(path@.text()),
{
    proof {
        reveal_strlit("pushd ");
        reveal_strlit("\n");
    }
    let mut r = String::from_str("pushd ");
    let text = path.text();
    r.append(text.as_str());
    r.append("\n");
    assert(r@ =~= host_command(path@.text()));
    r
}

/// The virtual-key code of the shift key.
pub const SHIFT_KEY: u16 = 0x10;

/// One key event: a key going down, or coming up.
#[derive(PartialEq, Eq, Structural, Clone, Copy, Debug)]
pub struct KeyPress {
    pub key: u16,
    pub up: bool,
}

/// The key events that type a character whose keyboard encoding is `enc`:
/// the low byte is the key; bit 8 asks for shift to be held around it.
pub open spec fn presses_for(enc: u16) -> Seq<KeyPress> {
    let key = (enc % 256) as u16;
    if (enc / 256) % 2 == 1 {
        seq![
            KeyPress { key: SHIFT_KEY, up: false },
            KeyPress { key, up: false },
            KeyPress { key, up: true },
            KeyPress { key: SHIFT_KEY, up: true },
        ]
    } else {
        seq![KeyPress { key, up: false }, KeyPress { key, up: true }]
    }
}

/// The key events that type a character whose keyboard encoding (the value
/// the keyboard layout gives for it, read as unsigned) is `enc`.
pub fn key_presses(enc: u16) -> (r: Vec<KeyPress>)
    ensures
        r@ == presses_for(enc),
{
    let key: u16 = enc & 0xff;
    let shift: u16 = (enc >> 8u16) & 1;
    assert(key == enc % 256) by (bit_vector)
        requires
            key == enc & 0xff,
    ;
    assert(shift == (enc / 256) % 2) by (bit_vector)
        requires
            shift == (enc >> 8u16) & 1,
    ;
    let mut r: Vec<KeyPress> = Vec::new();
    if shift == 1 {
        r.push(KeyPress { key: SHIFT_KEY, up: false });
        r.push(KeyPress { key, up: false });
        r.push(KeyPress { key, up: true });
        r.push(KeyPress { key: SHIFT_KEY, up: true });
    } else {
        r.push(KeyPress { key, up: false });
        r.push(KeyPress { key, up: true });
    }
    assert(r@ =~= presses_for(enc));
    r
}

} // verus!
