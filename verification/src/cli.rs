//! The command lines of the node programs.
use crate::dds::TransportMode;
use vstd::prelude::*;
use vstd::string::*;

verus! {

/// What `midw-node <NODE_ID> <SOCKET_PATH>` asks for.
pub struct IpcNodeArgs {
    pub node_id: String,
    pub socket_path: String,
}

/// What `midw-dds-node <NODE_ID> [udp|intra]` asks for.
pub struct DdsNodeArgs {
    pub node_id: String,
    pub transport: TransportMode,
}

/// Reads the command line of `midw-node`, the program's name first. Where a
/// required argument is missing, gives the line that says how to call it; what
/// follows the required arguments is not looked at.
pub fn ipc_node_args(args: &Vec<String>) -> (r: Result<IpcNodeArgs, String>)
    ensures
        match r {
            Ok(parsed) => {
                &&& args@.len() >= 3
                &&& parsed.node_id@ == args@[1]@
                &&& parsed.socket_path@ == args@[2]@
            },
            Err(usage) => {
                &&& args@.len() < 3
                &&& usage@ == "Usage: midw-node <NODE_ID> <SOCKET_PATH>"@
            },
        },
{
    if args.len() < 3 {
        Err(String::from_str("Usage: midw-node <NODE_ID> <SOCKET_PATH>"))
    } else {
        Ok(IpcNodeArgs { node_id: args[1].clone(), socket_path: args[2].clone() })
    }
}

/// Reads the command line of `midw-dds-node`, the program's name first. Where
/// the node's identifier is missing, gives the line that says how to call it.
///
/// `udp` selects the transport across processes and machines; without a second
/// argument, or with another one, the node stays in the process.
pub fn dds_node_args(args: &Vec<String>) -> (r: Result<DdsNodeArgs, String>)
    ensures
        match r {
            Ok(parsed) => {
                &&& args@.len() >= 2
                &&& parsed.node_id@ == args@[1]@
                &&& parsed.transport == (if args@.len() > 2 && args@[2]@ == "udp"@ {
                    TransportMode::UdpMulticast
                } else {
                    TransportMode::IntraProcess
                })
            },
            Err(usage) => {
                &&& args@.len() < 2
                &&& usage@ == "Usage: midw-dds-node <NODE_ID> [udp|intra]"@
            },
        },
{
    if args.len() < 2 {
        return Err(String::from_str("Usage: midw-dds-node <NODE_ID> [udp|intra]"));
    }
    let udp = String::from_str("udp");
    let transport = if args.len() > 2 && args[2] == udp {
        TransportMode::UdpMulticast
    } else {
        TransportMode::IntraProcess
    };
    Ok(DdsNodeArgs { node_id: args[1].clone(), transport })
}

/// A command line names the node, and then the socket or the transport; where
/// one of the required arguments is missing it is answered with how to call the
/// program. Only the word `udp` takes a node out of its process.
pub proof fn law_command_lines(
    args: Vec<String>,
    ipc: Result<IpcNodeArgs, String>,
    dds: Result<DdsNodeArgs, String>,
)
    requires
        call_ensures(ipc_node_args, (&args,), ipc),
        call_ensures(dds_node_args, (&args,), dds),
    ensures
        ipc is Ok <==> args@.len() >= 3,
        ipc matches Ok(parsed) ==> parsed.node_id@ == args@[1]@ && parsed.socket_path@
            == args@[2]@,
        ipc matches Err(usage) ==> usage@ == "Usage: midw-node <NODE_ID> <SOCKET_PATH>"@,
        dds is Ok <==> args@.len() >= 2,
        dds matches Ok(parsed) ==> parsed.node_id@ == args@[1]@ && (parsed.transport
            == TransportMode::UdpMulticast <==> args@.len() >= 3 && args@[2]@ == seq![
            'u',
            'd',
            'p',
        ]),
        dds matches Err(usage) ==> usage@ == "Usage: midw-dds-node <NODE_ID> [udp|intra]"@,
{
    reveal_strlit("udp");
    assert("udp"@ =~= seq!['u', 'd', 'p']);
}

} // verus!
