//! What holds of the end-to-end check: what it asks for and how it judges.

use crate::headers;
use crate::json;
use crate::json::JsonTree;
use crate::message;
use crate::params;
use crate::selftest;
use crate::text;
use vstd::prelude::*;

verus! {

/// The check logs in with the account and the password that it is given, to Video Station, and
/// asks for the session in plain.
pub proof fn law_logins_name_the_account(account: Seq<char>, password: Seq<char>)
    ensures
        ({
            let pairs = selftest::login_pairs(account, password);
            &&& pairs.len() == 7
            &&& pairs[0] == ("api"@, "SYNO.API.Auth"@)
            &&& pairs[1] == ("version"@, "6"@)
            &&& pairs[2] == ("method"@, "login"@)
            &&& pairs[3] == ("account"@, account)
            &&& pairs[4] == ("passwd"@, password)
            &&& pairs[5] == ("session"@, "VideoStation"@)
            &&& pairs[6] == ("format"@, "sid"@)
        }),
{
}

/// The session that is closed at the end is the one that was opened, and of the same kind.
pub proof fn law_logouts_name_the_session(
    account: Seq<char>,
    password: Seq<char>,
    sid: Seq<char>,
)
    ensures
        ({
            let login = selftest::login_pairs(account, password);
            let logout = selftest::logout_pairs(sid);
            &&& logout.len() == 5
            &&& logout[0] == login[0]
            &&& logout[1] == login[1]
            &&& logout[2] == ("method"@, "logout"@)
            &&& logout[3] == login[5]
            &&& logout[4] == ("_sid"@, sid)
        }),
{
}

/// The check asks for the file that it is given, under its session: two different files are
/// asked for differently, and in nothing but the name of the file.
pub proof fn law_opens_name_the_file(one: u64, two: u64, sid: Seq<char>, i: int)
    requires
        0 <= i < selftest::open_pairs(one, sid).len(),
    ensures
        selftest::open_pairs(one, sid).len() == 6,
        selftest::open_pairs(one, sid)[3] == ("file"@, selftest::file_reference(one)),
        selftest::open_pairs(one, sid)[4].0 == "hls_remux"@,
        selftest::open_pairs(one, sid)[5] == ("_sid"@, sid),
        i != 3 ==> selftest::open_pairs(one, sid)[i] == selftest::open_pairs(two, sid)[i],
        selftest::file_reference(one) == "{\"id\":"@ + text::decimal_digits(one as nat) + "}"@,
        one != two ==> selftest::file_reference(one) != selftest::file_reference(two),
{
    super::reading::law_decimals_are_read_back(one as nat);
    super::reading::law_decimals_are_read_back(two as nat);
    let a = text::decimal_digits(one as nat);
    let b = text::decimal_digits(two as nat);
    let open = "{\"id\":"@;
    let close = "}"@;
    if selftest::file_reference(one) == selftest::file_reference(two) {
        let s = open + a + close;
        let t = open + b + close;
        assert(s.len() == t.len());
        assert(a.len() == b.len());
        assert(s.subrange(open.len() as int, (open.len() + a.len()) as int) =~= a);
        assert(t.subrange(open.len() as int, (open.len() + a.len()) as int) =~= b);
    }
}

/// What is asked for is a remuxed stream for a tvOS player, in the interface and the version that
/// the player uses.
pub proof fn law_opens_ask_as_the_player_does(file: u64, sid: Seq<char>)
    ensures
        selftest::open_pairs(file, sid)[0] == ("api"@, "SYNO.VideoStation2.Streaming"@),
        selftest::open_pairs(file, sid)[1] == ("version"@, "1"@),
        selftest::open_pairs(file, sid)[2] == ("method"@, "open"@),
        selftest::open_pairs(file, sid)[4].1
            == "{\"device\":\"tvos\",\"force_open_vte\":false,\"audio_track\":1,\"profile\":\"\"}"@,
{
}

/// A login gives a session exactly where its data hold one as text; otherwise the error that the
/// answer gives is told.
pub proof fn law_sessions_come_from_the_data(login: JsonTree)
    ensures
        match login.member("data"@).member("sid"@) {
            JsonTree::Str(sid) => selftest::session_of(login) == Ok::<Seq<char>, Seq<char>>(sid),
            _ => selftest::session_of(login) == Err::<Seq<char>, Seq<char>>(
                "login failed: "@ + json::json_text(login.member("error"@)),
            ),
        },
{
}

/// An answer that says of success that it is true is summed up by its format, any other by its
/// error.
pub proof fn law_summaries(answer: JsonTree)
    ensures
        answer.member("success"@) == JsonTree::Bool(true) ==> selftest::summary_text(answer)
            == "ok, format "@ + json::json_text(answer.member("data"@).member("format"@)),
        answer.member("success"@) != JsonTree::Bool(true) ==> selftest::summary_text(answer)
            == "error "@ + json::json_text(answer.member("error"@)),
{
}

/// The address of a stream gives the proxy, the place, the method, the stream and the session,
/// each in its part, and asks for the remuxed format.
pub proof fn law_streams_are_addressed(
    proxy: Seq<char>,
    place: Seq<char>,
    method: Seq<char>,
    id: Seq<char>,
    sid: Seq<char>,
)
    ensures
        selftest::stream_address(proxy, place, method, id, sid) == proxy + (place + (
        "?api=SYNO.VideoStation.Streaming&version=1&method="@ + (method + ("&id="@ + (id + (
        "&format=hls_remux&_sid="@ + sid)))))),
{
    assert(selftest::stream_address(proxy, place, method, id, sid) =~= proxy + (place + (
    "?api=SYNO.VideoStation.Streaming&version=1&method="@ + (method + ("&id="@ + (id + (
    "&format=hls_remux&_sid="@ + sid)))))));
}

/// Bytes start like an MP4 file exactly where there are at least twelve of them and `ftyp` stands
/// behind the first four, whatever the others are.
pub proof fn law_mp4_files_start_with_ftyp(head: Seq<u8>)
    ensures
        selftest::starts_as_mp4(head) <==> {
            &&& head.len() >= 12
            &&& head[4] == 'f' as u8
            &&& head[5] == 't' as u8
            &&& head[6] == 'y' as u8
            &&& head[7] == 'p' as u8
        },
{
    if head.len() >= 12 {
        let kind = head.subrange(4, 8);
        assert(kind[0] == head[4] && kind[1] == head[5] && kind[2] == head[6] && kind[3]
            == head[7]);
        if selftest::starts_as_mp4(head) {
            assert(kind[0] == 102u8 && kind[1] == 116u8 && kind[2] == 121u8 && kind[3] == 112u8);
        }
        if head[4] == 102u8 && head[5] == 116u8 && head[6] == 121u8 && head[7] == 112u8 {
            assert(kind =~= seq![102u8, 116u8, 121u8, 112u8]);
        }
    }
}

/// What is said of a stream tells its status, its type, its range, its length, and whether it
/// starts like an MP4 file.
pub proof fn law_streams_in_words(
    status: u16,
    all: Seq<(Seq<char>, Seq<u8>)>,
    head: Seq<u8>,
)
    ensures
        ({
            let told = "stream: "@ + message::status_words(status) + ", "@ + headers::text_or(
                all,
                "content-type"@,
                "?"@,
            ) + ", content-range "@ + headers::text_or(all, "content-range"@, "-"@) + ", "@
                + text::decimal_digits(head.len()) + " bytes, mp4 header: "@;
            &&& selftest::starts_as_mp4(head) ==> selftest::stream_line(status, all, head) == told
                + "true"@
            &&& !selftest::starts_as_mp4(head) ==> selftest::stream_line(status, all, head) == told
                + "false"@
        }),
{
}

/// A check says that it has logged out, whether it passed or not, and `PASS` behind that if it
/// passed.
pub proof fn law_checks_end_with_the_logout(passed: bool)
    ensures
        selftest::closing_lines(passed)[0] == "logged out"@,
        selftest::closing_lines(true) == selftest::closing_lines(false).push("PASS"@),
        selftest::closing_lines(false).len() == 1,
{
    assert(selftest::closing_lines(true) =~= selftest::closing_lines(false).push("PASS"@));
}

/// The parameters of the check are all different, so that each is found under its name.
pub proof fn law_check_parameters_are_found(
    account: Seq<char>,
    password: Seq<char>,
    sid: Seq<char>,
)
    ensures
        params::lookup(selftest::login_pairs(account, password), "account"@) == Some(account),
        params::lookup(selftest::login_pairs(account, password), "passwd"@) == Some(password),
        params::lookup(selftest::logout_pairs(sid), "_sid"@) == Some(sid),
{
    reveal_strlit("api");
    reveal_strlit("version");
    reveal_strlit("method");
    reveal_strlit("account");
    reveal_strlit("passwd");
    reveal_strlit("session");
    reveal_strlit("_sid");
    assert("version"@[0] == 'v' && "account"@[0] == 'a' && "session"@[0] == 's' && "method"@[0]
        == 'm' && "passwd"@[0] == 'p' && "_sid"@[0] == '_' && "api"@.len() == 3
        && "account"@.len() == 7 && "passwd"@.len() == 6 && "_sid"@.len() == 4);
    reveal_with_fuel(params::lookup, 6);
}

} // verus!
