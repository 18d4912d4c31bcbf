//! Desktop integration strings: the content of the generated desktop-entry
//! file and the argument list of a desktop notification. Writing the file,
//! choosing its (slugified) file name and spawning the notifier stay with the
//! host.

use vstd::prelude::*;

verus! {

use crate::strutil;
use vstd::string::StringExecFns;

/// The desktop-entry content for an application name and executable path.
pub open spec fn desktop_entry_spec(app_name: Seq<char>, exec_path: Seq<char>) -> Seq<char> {
    "[Desktop Entry]\nVersion=1.0\nType=Application\nName="@ + app_name + "\nExec="@ + exec_path
        + "\nIcon=messenger-desktop\nTerminal=false\nCategories=Network;InstantMessaging;\n"@
}

/// The content of the desktop-entry file registering the application.
pub fn generate_desktop_file(app_name: &str, exec_path: &str) -> (r: String)
    ensures
        r@ == desktop_entry_spec(app_name@, exec_path@),
{
    let head = strutil::concat2("[Desktop Entry]\nVersion=1.0\nType=Application\nName=", app_name);
    let mid = strutil::concat2(head.as_str(), "\nExec=");
    let with_exec = strutil::concat2(mid.as_str(), exec_path);
    strutil::concat2(
        with_exec.as_str(),
        "\nIcon=messenger-desktop\nTerminal=false\nCategories=Network;InstantMessaging;\n",
    )
}

/// The lower-case counterpart of an upper-case ASCII letter; any other
/// character is left alone.
pub open spec fn lower_ascii_char(c: char) -> char {
    if c == 'A' {
        'a'
    } else if c == 'B' {
        'b'
    } else if c == 'C' {
        'c'
    } else if c == 'D' {
        'd'
    } else if c == 'E' {
        'e'
    } else if c == 'F' {
        'f'
    } else if c == 'G' {
        'g'
    } else if c == 'H' {
        'h'
    } else if c == 'I' {
        'i'
    } else if c == 'J' {
        'j'
    } else if c == 'K' {
        'k'
    } else if c == 'L' {
        'l'
    } else if c == 'M' {
        'm'
    } else if c == 'N' {
        'n'
    } else if c == 'O' {
        'o'
    } else if c == 'P' {
        'p'
    } else if c == 'Q' {
        'q'
    } else if c == 'R' {
        'r'
    } else if c == 'S' {
        's'
    } else if c == 'T' {
        't'
    } else if c == 'U' {
        'u'
    } else if c == 'V' {
        'v'
    } else if c == 'W' {
        'w'
    } else if c == 'X' {
        'x'
    } else if c == 'Y' {
        'y'
    } else if c == 'Z' {
        'z'
    } else {
        c
    }
}

/// One character of the desktop-entry file-name slug: a space becomes a
/// hyphen, an upper-case ASCII letter becomes lower-case, anything else is
/// kept.
pub open spec fn slug_char(c: char) -> char {
    if c == ' ' {
        '-'
    } else {
        lower_ascii_char(c)
    }
}

/// The desktop-entry file name for an application name: the name with spaces
/// hyphenated and ASCII letters lower-cased, followed by ".desktop".
pub open spec fn desktop_file_name_spec(app_name: Seq<char>) -> Seq<char> {
    app_name.map_values(|c: char| slug_char(c)) + ".desktop"@
}

/// The name of the desktop-entry file registering the application.
pub fn desktop_file_name(app_name: &str) -> (r: String)
    ensures
        r@ == desktop_file_name_spec(app_name@),
{
    let len = app_name.unicode_len();
    let mut out = String::new();
    let mut i: usize = 0;
    while i < len
        invariant
            len == app_name@.len(),
            i <= len,
            out@ == app_name@.subrange(0, i as int).map_values(|c: char| slug_char(c)),
        decreases len - i,
    {
        let c = app_name.get_char(i);
        let piece: &str = if c == ' ' {
            "-"
        } else if c == 'A' {
            "a"
        } else if c == 'B' {
            "b"
        } else if c == 'C' {
            "c"
        } else if c == 'D' {
            "d"
        } else if c == 'E' {
            "e"
        } else if c == 'F' {
            "f"
        } else if c == 'G' {
            "g"
        } else if c == 'H' {
            "h"
        } else if c == 'I' {
            "i"
        } else if c == 'J' {
            "j"
        } else if c == 'K' {
            "k"
        } else if c == 'L' {
            "l"
        } else if c == 'M' {
            "m"
        } else if c == 'N' {
            "n"
        } else if c == 'O' {
            "o"
        } else if c == 'P' {
            "p"
        } else if c == 'Q' {
            "q"
        } else if c == 'R' {
            "r"
        } else if c == 'S' {
            "s"
        } else if c == 'T' {
            "t"
        } else if c == 'U' {
            "u"
        } else if c == 'V' {
            "v"
        } else if c == 'W' {
            "w"
        } else if c == 'X' {
            "x"
        } else if c == 'Y' {
            "y"
        } else if c == 'Z' {
            "z"
        } else {
            app_name.substring_char(i, i + 1)
        };
        proof {
            reveal_strlit("-");
            reveal_strlit("a");
            reveal_strlit("b");
            reveal_strlit("c");
            reveal_strlit("d");
            reveal_strlit("e");
            reveal_strlit("f");
            reveal_strlit("g");
            reveal_strlit("h");
            reveal_strlit("i");
            reveal_strlit("j");
            reveal_strlit("k");
            reveal_strlit("l");
            reveal_strlit("m");
            reveal_strlit("n");
            reveal_strlit("o");
            reveal_strlit("p");
            reveal_strlit("q");
            reveal_strlit("r");
            reveal_strlit("s");
            reveal_strlit("t");
            reveal_strlit("u");
            reveal_strlit("v");
            reveal_strlit("w");
            reveal_strlit("x");
            reveal_strlit("y");
            reveal_strlit("z");
            assert(app_name@.subrange(i as int, i + 1) =~= seq![app_name@[i as int]]);
            assert(piece@ =~= seq![slug_char(app_name@[i as int])]);
        }
        out.append(piece);
        proof {
            assert(out@ =~= app_name@.subrange(0, i + 1).map_values(|ch: char| slug_char(ch)))
                by {
                assert(app_name@.subrange(0, i + 1) =~= app_name@.subrange(0, i as int).push(
                    app_name@[i as int],
                ));
            }
        }
        i = i + 1;
    }
    proof {
        assert(app_name@.subrange(0, app_name@.len() as int) =~= app_name@);
    }
    strutil::concat2(out.as_str(), ".desktop")
}

/// The argument list handed to the desktop notifier (notify-send): the fixed
/// application name, the icon switch, then title and body.
pub fn dbus_notification_args(title: &str, body: &str, icon: &str) -> (r: Vec<String>)
    ensures
        r@.len() == 4,
        r@[0]@ == "--app-name=Messenger Desktop"@,
        r@[1]@ == "--icon="@ + icon@,
        r@[2]@ == title@,
        r@[3]@ == body@,
{
    let mut args: Vec<String> = Vec::new();
    args.push(String::from_str("--app-name=Messenger Desktop"));
    args.push(strutil::concat2("--icon=", icon));
    args.push(String::from_str(title));
    args.push(String::from_str(body));
    args
}

} // verus!
