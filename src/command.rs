//! The accounting request that the command-line client sends to log a shell
//! command.

use vstd::prelude::*;
use vstd::string::StringExecFns;
use crate::accounting_request::{strings_view, AccountingRequest};
use crate::enumerations::{
    TacacsAuthenticationMethod, TacacsAuthenticationService, TacacsAuthenticationType,
};
use crate::flags::TacacsAccountingFlags;

verus! {

/// The arguments logged for command `cmd` with arguments `args`:
/// `service=shell`, `cmd=<cmd>`, then `cmd-arg=<arg>` for each argument.
pub open spec fn shell_command_args(cmd: Seq<char>, args: Seq<Seq<char>>) -> Seq<Seq<char>> {
    seq!["service=shell"@, "cmd="@ + cmd] + Seq::new(args.len(), |i: int| "cmd-arg="@ + args[i])
}

/// The request that logs shell command `cmd` with arguments `cmd_args`
/// (none where `None`) for `user` on `port` from `rem_address`: START and
/// STOP set, no authentication method, privilege level 0.
pub fn shell_command_request(
    user: &str,
    port: &str,
    rem_address: &str,
    cmd: &str,
    cmd_args: &Option<Vec<String>>,
) -> (r: AccountingRequest)
    ensures
        r.flags == (TacacsAccountingFlags { start: true, stop: true, watchdog: false }),
        r.authen_method == TacacsAuthenticationMethod::TacPlusAuthenMethodNone,
        r.priv_lvl == 0,
        r.authen_type == TacacsAuthenticationType::TacPlusAuthenTypeNotSet,
        r.authen_service == TacacsAuthenticationService::TacPlusAuthenSvcNone,
        r@.user == user@,
        r@.port == port@,
        r@.rem_address == rem_address@,
        r@.args == shell_command_args(
            cmd@,
            match cmd_args {
                Some(a) => strings_view(a@),
                None => Seq::<Seq<char>>::empty(),
            },
        ),
{
    let ghost extra = match cmd_args {
        Some(a) => strings_view(a@),
        None => Seq::<Seq<char>>::empty(),
    };
    let mut args: Vec<String> = Vec::new();
    args.push(<String as StringExecFns>::from_str("service=shell"));
    let mut c = <String as StringExecFns>::from_str("cmd=");
    c.append(cmd);
    args.push(c);
    if let Some(list) = cmd_args {
        let mut i: usize = 0;
        while i < list.len()
            invariant
                0 <= i <= list@.len(),
                extra == strings_view(list@),
                strings_view(args@) == shell_command_args(cmd@, extra.take(i as int)),
            decreases list@.len() - i,
        {
            assert(extra[i as int] == list@[i as int]@);
            let ghost before = strings_view(args@);
            let mut a = <String as StringExecFns>::from_str("cmd-arg=");
            a.append(list[i].as_str());
            args.push(a);
            assert(strings_view(args@) =~= before.push(args@[args@.len() - 1]@));
            i = i + 1;
            assert(strings_view(args@) =~= shell_command_args(cmd@, extra.take(i as int)));
        }
        assert(extra.take(i as int) =~= extra);
    } else {
        assert(strings_view(args@) =~= shell_command_args(cmd@, extra));
    }
    let start = TacacsAccountingFlags::start_flag();
    let stop = TacacsAccountingFlags::stop_flag();
    AccountingRequest {
        flags: start.union(&stop),
        authen_method: TacacsAuthenticationMethod::TacPlusAuthenMethodNone,
        priv_lvl: 0,
        authen_type: TacacsAuthenticationType::TacPlusAuthenTypeNotSet,
        authen_service: TacacsAuthenticationService::TacPlusAuthenSvcNone,
        user: user.to_owned(),
        port: port.to_owned(),
        rem_address: rem_address.to_owned(),
        args,
    }
}

} // verus!
