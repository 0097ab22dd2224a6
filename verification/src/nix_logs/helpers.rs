//! What a message leaves in the log files that are kept for each activity,
//! and what a line loses before it is shown.

use crate::nix_logs::text::{chars_of, matches_at, occurs_at, starts_with};
use crate::nix_logs::types::{ActivityResult, ActivityResultView, JSONMessage, MessageView};
use vstd::prelude::*;
use vstd::string::{StrSliceExecFns, StringExecFns};

verus! {

/// The sequences that a line loses before it is shown, in the order in which
/// they are looked for: the colours and styles of a terminal as they stand
/// in escaped text, what is left of them, and quotes.
pub const ESCAPE_SEQUENCES: [&'static str; 566] = [
    "\\u001b[39m",
    "\\u001b[30m",
    "\\u001b[31m",
    "\\u001b[32m",
    "\\u001b[33m",
    "\\u001b[34m",
    "\\u001b[35m",
    "\\u001b[36m",
    "\\u001b[37m",
    "\\u001b[49m",
    "\\u001b[40m",
    "\\u001b[41m",
    "\\u001b[42m",
    "\\u001b[43m",
    "\\u001b[44m",
    "\\u001b[45m",
    "\\u001b[46m",
    "\\u001b[47m",
    "\\u001b[90m",
    "\\u001b[91m",
    "\\u001b[92m",
    "\\u001b[93m",
    "\\u001b[94m",
    "\\u001b[95m",
    "\\u001b[96m",
    "\\u001b[97m",
    "\\u001b[100m",
    "\\u001b[101m",
    "\\u001b[102m",
    "\\u001b[103m",
    "\\u001b[104m",
    "\\u001b[105m",
    "\\u001b[106m",
    "\\u001b[107m",
    "\\u001b[38;5;0m",
    "\\u001b[38;5;1m",
    "\\u001b[38;5;2m",
    "\\u001b[38;5;3m",
    "\\u001b[38;5;4m",
    "\\u001b[38;5;5m",
    "\\u001b[38;5;6m",
    "\\u001b[38;5;7m",
    "\\u001b[38;5;8m",
    "\\u001b[38;5;9m",
    "\\u001b[38;5;10m",
    "\\u001b[38;5;11m",
    "\\u001b[38;5;12m",
    "\\u001b[38;5;13m",
    "\\u001b[38;5;14m",
    "\\u001b[38;5;15m",
    "\\u001b[38;5;16m",
    "\\u001b[38;5;17m",
    "\\u001b[38;5;18m",
    "\\u001b[38;5;19m",
    "\\u001b[38;5;20m",
    "\\u001b[38;5;21m",
    "\\u001b[38;5;22m",
    "\\u001b[38;5;23m",
    "\\u001b[38;5;24m",
    "\\u001b[38;5;25m",
    "\\u001b[38;5;26m",
    "\\u001b[38;5;27m",
    "\\u001b[38;5;28m",
    "\\u001b[38;5;29m",
    "\\u001b[38;5;30m",
    "\\u001b[38;5;31m",
    "\\u001b[38;5;32m",
    "\\u001b[38;5;33m",
    "\\u001b[38;5;34m",
    "\\u001b[38;5;35m",
    "\\u001b[38;5;36m",
    "\\u001b[38;5;37m",
    "\\u001b[38;5;38m",
    "\\u001b[38;5;39m",
    "\\u001b[38;5;40m",
    "\\u001b[38;5;41m",
    "\\u001b[38;5;42m",
    "\\u001b[38;5;43m",
    "\\u001b[38;5;44m",
    "\\u001b[38;5;45m",
    "\\u001b[38;5;46m",
    "\\u001b[38;5;47m",
    "\\u001b[38;5;48m",
    "\\u001b[38;5;49m",
    "\\u001b[38;5;50m",
    "\\u001b[38;5;51m",
    "\\u001b[38;5;52m",
    "\\u001b[38;5;53m",
    "\\u001b[38;5;54m",
    "\\u001b[38;5;55m",
    "\\u001b[38;5;56m",
    "\\u001b[38;5;57m",
    "\\u001b[38;5;58m",
    "\\u001b[38;5;59m",
    "\\u001b[38;5;60m",
    "\\u001b[38;5;61m",
    "\\u001b[38;5;62m",
    "\\u001b[38;5;63m",
    "\\u001b[38;5;64m",
    "\\u001b[38;5;65m",
    "\\u001b[38;5;66m",
    "\\u001b[38;5;67m",
    "\\u001b[38;5;68m",
    "\\u001b[38;5;69m",
    "\\u001b[38;5;70m",
    "\\u001b[38;5;71m",
    "\\u001b[38;5;72m",
    "\\u001b[38;5;73m",
    "\\u001b[38;5;74m",
    "\\u001b[38;5;75m",
    "\\u001b[38;5;76m",
    "\\u001b[38;5;77m",
    "\\u001b[38;5;78m",
    "\\u001b[38;5;79m",
    "\\u001b[38;5;80m",
    "\\u001b[38;5;81m",
    "\\u001b[38;5;82m",
    "\\u001b[38;5;83m",
    "\\u001b[38;5;84m",
    "\\u001b[38;5;85m",
    "\\u001b[38;5;86m",
    "\\u001b[38;5;87m",
    "\\u001b[38;5;88m",
    "\\u001b[38;5;89m",
    "\\u001b[38;5;90m",
    "\\u001b[38;5;91m",
    "\\u001b[38;5;92m",
    "\\u001b[38;5;93m",
    "\\u001b[38;5;94m",
    "\\u001b[38;5;95m",
    "\\u001b[38;5;96m",
    "\\u001b[38;5;97m",
    "\\u001b[38;5;98m",
    "\\u001b[38;5;99m",
    "\\u001b[38;5;100m",
    "\\u001b[38;5;101m",
    "\\u001b[38;5;102m",
    "\\u001b[38;5;103m",
    "\\u001b[38;5;104m",
    "\\u001b[38;5;105m",
    "\\u001b[38;5;106m",
    "\\u001b[38;5;107m",
    "\\u001b[38;5;108m",
    "\\u001b[38;5;109m",
    "\\u001b[38;5;110m",
    "\\u001b[38;5;111m",
    "\\u001b[38;5;112m",
    "\\u001b[38;5;113m",
    "\\u001b[38;5;114m",
    "\\u001b[38;5;115m",
    "\\u001b[38;5;116m",
    "\\u001b[38;5;117m",
    "\\u001b[38;5;118m",
    "\\u001b[38;5;119m",
    "\\u001b[38;5;120m",
    "\\u001b[38;5;121m",
    "\\u001b[38;5;122m",
    "\\u001b[38;5;123m",
    "\\u001b[38;5;124m",
    "\\u001b[38;5;125m",
    "\\u001b[38;5;126m",
    "\\u001b[38;5;127m",
    "\\u001b[38;5;128m",
    "\\u001b[38;5;129m",
    "\\u001b[38;5;130m",
    "\\u001b[38;5;131m",
    "\\u001b[38;5;132m",
    "\\u001b[38;5;133m",
    "\\u001b[38;5;134m",
    "\\u001b[38;5;135m",
    "\\u001b[38;5;136m",
    "\\u001b[38;5;137m",
    "\\u001b[38;5;138m",
    "\\u001b[38;5;139m",
    "\\u001b[38;5;140m",
    "\\u001b[38;5;141m",
    "\\u001b[38;5;142m",
    "\\u001b[38;5;143m",
    "\\u001b[38;5;144m",
    "\\u001b[38;5;145m",
    "\\u001b[38;5;146m",
    "\\u001b[38;5;147m",
    "\\u001b[38;5;148m",
    "\\u001b[38;5;149m",
    "\\u001b[38;5;150m",
    "\\u001b[38;5;151m",
    "\\u001b[38;5;152m",
    "\\u001b[38;5;153m",
    "\\u001b[38;5;154m",
    "\\u001b[38;5;155m",
    "\\u001b[38;5;156m",
    "\\u001b[38;5;157m",
    "\\u001b[38;5;158m",
    "\\u001b[38;5;159m",
    "\\u001b[38;5;160m",
    "\\u001b[38;5;161m",
    "\\u001b[38;5;162m",
    "\\u001b[38;5;163m",
    "\\u001b[38;5;164m",
    "\\u001b[38;5;165m",
    "\\u001b[38;5;166m",
    "\\u001b[38;5;167m",
    "\\u001b[38;5;168m",
    "\\u001b[38;5;169m",
    "\\u001b[38;5;170m",
    "\\u001b[38;5;171m",
    "\\u001b[38;5;172m",
    "\\u001b[38;5;173m",
    "\\u001b[38;5;174m",
    "\\u001b[38;5;175m",
    "\\u001b[38;5;176m",
    "\\u001b[38;5;177m",
    "\\u001b[38;5;178m",
    "\\u001b[38;5;179m",
    "\\u001b[38;5;180m",
    "\\u001b[38;5;181m",
    "\\u001b[38;5;182m",
    "\\u001b[38;5;183m",
    "\\u001b[38;5;184m",
    "\\u001b[38;5;185m",
    "\\u001b[38;5;186m",
    "\\u001b[38;5;187m",
    "\\u001b[38;5;188m",
    "\\u001b[38;5;189m",
    "\\u001b[38;5;190m",
    "\\u001b[38;5;191m",
    "\\u001b[38;5;192m",
    "\\u001b[38;5;193m",
    "\\u001b[38;5;194m",
    "\\u001b[38;5;195m",
    "\\u001b[38;5;196m",
    "\\u001b[38;5;197m",
    "\\u001b[38;5;198m",
    "\\u001b[38;5;199m",
    "\\u001b[38;5;200m",
    "\\u001b[38;5;201m",
    "\\u001b[38;5;202m",
    "\\u001b[38;5;203m",
    "\\u001b[38;5;204m",
    "\\u001b[38;5;205m",
    "\\u001b[38;5;206m",
    "\\u001b[38;5;207m",
    "\\u001b[38;5;208m",
    "\\u001b[38;5;209m",
    "\\u001b[38;5;210m",
    "\\u001b[38;5;211m",
    "\\u001b[38;5;212m",
    "\\u001b[38;5;213m",
    "\\u001b[38;5;214m",
    "\\u001b[38;5;215m",
    "\\u001b[38;5;216m",
    "\\u001b[38;5;217m",
    "\\u001b[38;5;218m",
    "\\u001b[38;5;219m",
    "\\u001b[38;5;220m",
    "\\u001b[38;5;221m",
    "\\u001b[38;5;222m",
    "\\u001b[38;5;223m",
    "\\u001b[38;5;224m",
    "\\u001b[38;5;225m",
    "\\u001b[38;5;226m",
    "\\u001b[38;5;227m",
    "\\u001b[38;5;228m",
    "\\u001b[38;5;229m",
    "\\u001b[38;5;230m",
    "\\u001b[38;5;231m",
    "\\u001b[38;5;232m",
    "\\u001b[38;5;233m",
    "\\u001b[38;5;234m",
    "\\u001b[38;5;235m",
    "\\u001b[38;5;236m",
    "\\u001b[38;5;237m",
    "\\u001b[38;5;238m",
    "\\u001b[38;5;239m",
    "\\u001b[38;5;240m",
    "\\u001b[38;5;241m",
    "\\u001b[38;5;242m",
    "\\u001b[38;5;243m",
    "\\u001b[38;5;244m",
    "\\u001b[38;5;245m",
    "\\u001b[38;5;246m",
    "\\u001b[38;5;247m",
    "\\u001b[38;5;248m",
    "\\u001b[38;5;249m",
    "\\u001b[38;5;250m",
    "\\u001b[38;5;251m",
    "\\u001b[38;5;252m",
    "\\u001b[38;5;253m",
    "\\u001b[38;5;254m",
    "\\u001b[38;5;255m",
    "\\u001b[48;5;0m",
    "\\u001b[48;5;1m",
    "\\u001b[48;5;2m",
    "\\u001b[48;5;3m",
    "\\u001b[48;5;4m",
    "\\u001b[48;5;5m",
    "\\u001b[48;5;6m",
    "\\u001b[48;5;7m",
    "\\u001b[48;5;8m",
    "\\u001b[48;5;9m",
    "\\u001b[48;5;10m",
    "\\u001b[48;5;11m",
    "\\u001b[48;5;12m",
    "\\u001b[48;5;13m",
    "\\u001b[48;5;14m",
    "\\u001b[48;5;15m",
    "\\u001b[48;5;16m",
    "\\u001b[48;5;17m",
    "\\u001b[48;5;18m",
    "\\u001b[48;5;19m",
    "\\u001b[48;5;20m",
    "\\u001b[48;5;21m",
    "\\u001b[48;5;22m",
    "\\u001b[48;5;23m",
    "\\u001b[48;5;24m",
    "\\u001b[48;5;25m",
    "\\u001b[48;5;26m",
    "\\u001b[48;5;27m",
    "\\u001b[48;5;28m",
    "\\u001b[48;5;29m",
    "\\u001b[48;5;30m",
    "\\u001b[48;5;31m",
    "\\u001b[48;5;32m",
    "\\u001b[48;5;33m",
    "\\u001b[48;5;34m",
    "\\u001b[48;5;35m",
    "\\u001b[48;5;36m",
    "\\u001b[48;5;37m",
    "\\u001b[48;5;38m",
    "\\u001b[48;5;39m",
    "\\u001b[48;5;40m",
    "\\u001b[48;5;41m",
    "\\u001b[48;5;42m",
    "\\u001b[48;5;43m",
    "\\u001b[48;5;44m",
    "\\u001b[48;5;45m",
    "\\u001b[48;5;46m",
    "\\u001b[48;5;47m",
    "\\u001b[48;5;48m",
    "\\u001b[48;5;49m",
    "\\u001b[48;5;50m",
    "\\u001b[48;5;51m",
    "\\u001b[48;5;52m",
    "\\u001b[48;5;53m",
    "\\u001b[48;5;54m",
    "\\u001b[48;5;55m",
    "\\u001b[48;5;56m",
    "\\u001b[48;5;57m",
    "\\u001b[48;5;58m",
    "\\u001b[48;5;59m",
    "\\u001b[48;5;60m",
    "\\u001b[48;5;61m",
    "\\u001b[48;5;62m",
    "\\u001b[48;5;63m",
    "\\u001b[48;5;64m",
    "\\u001b[48;5;65m",
    "\\u001b[48;5;66m",
    "\\u001b[48;5;67m",
    "\\u001b[48;5;68m",
    "\\u001b[48;5;69m",
    "\\u001b[48;5;70m",
    "\\u001b[48;5;71m",
    "\\u001b[48;5;72m",
    "\\u001b[48;5;73m",
    "\\u001b[48;5;74m",
    "\\u001b[48;5;75m",
    "\\u001b[48;5;76m",
    "\\u001b[48;5;77m",
    "\\u001b[48;5;78m",
    "\\u001b[48;5;79m",
    "\\u001b[48;5;80m",
    "\\u001b[48;5;81m",
    "\\u001b[48;5;82m",
    "\\u001b[48;5;83m",
    "\\u001b[48;5;84m",
    "\\u001b[48;5;85m",
    "\\u001b[48;5;86m",
    "\\u001b[48;5;87m",
    "\\u001b[48;5;88m",
    "\\u001b[48;5;89m",
    "\\u001b[48;5;90m",
    "\\u001b[48;5;91m",
    "\\u001b[48;5;92m",
    "\\u001b[48;5;93m",
    "\\u001b[48;5;94m",
    "\\u001b[48;5;95m",
    "\\u001b[48;5;96m",
    "\\u001b[48;5;97m",
    "\\u001b[48;5;98m",
    "\\u001b[48;5;99m",
    "\\u001b[48;5;100m",
    "\\u001b[48;5;101m",
    "\\u001b[48;5;102m",
    "\\u001b[48;5;103m",
    "\\u001b[48;5;104m",
    "\\u001b[48;5;105m",
    "\\u001b[48;5;106m",
    "\\u001b[48;5;107m",
    "\\u001b[48;5;108m",
    "\\u001b[48;5;109m",
    "\\u001b[48;5;110m",
    "\\u001b[48;5;111m",
    "\\u001b[48;5;112m",
    "\\u001b[48;5;113m",
    "\\u001b[48;5;114m",
    "\\u001b[48;5;115m",
    "\\u001b[48;5;116m",
    "\\u001b[48;5;117m",
    "\\u001b[48;5;118m",
    "\\u001b[48;5;119m",
    "\\u001b[48;5;120m",
    "\\u001b[48;5;121m",
    "\\u001b[48;5;122m",
    "\\u001b[48;5;123m",
    "\\u001b[48;5;124m",
    "\\u001b[48;5;125m",
    "\\u001b[48;5;126m",
    "\\u001b[48;5;127m",
    "\\u001b[48;5;128m",
    "\\u001b[48;5;129m",
    "\\u001b[48;5;130m",
    "\\u001b[48;5;131m",
    "\\u001b[48;5;132m",
    "\\u001b[48;5;133m",
    "\\u001b[48;5;134m",
    "\\u001b[48;5;135m",
    "\\u001b[48;5;136m",
    "\\u001b[48;5;137m",
    "\\u001b[48;5;138m",
    "\\u001b[48;5;139m",
    "\\u001b[48;5;140m",
    "\\u001b[48;5;141m",
    "\\u001b[48;5;142m",
    "\\u001b[48;5;143m",
    "\\u001b[48;5;144m",
    "\\u001b[48;5;145m",
    "\\u001b[48;5;146m",
    "\\u001b[48;5;147m",
    "\\u001b[48;5;148m",
    "\\u001b[48;5;149m",
    "\\u001b[48;5;150m",
    "\\u001b[48;5;151m",
    "\\u001b[48;5;152m",
    "\\u001b[48;5;153m",
    "\\u001b[48;5;154m",
    "\\u001b[48;5;155m",
    "\\u001b[48;5;156m",
    "\\u001b[48;5;157m",
    "\\u001b[48;5;158m",
    "\\u001b[48;5;159m",
    "\\u001b[48;5;160m",
    "\\u001b[48;5;161m",
    "\\u001b[48;5;162m",
    "\\u001b[48;5;163m",
    "\\u001b[48;5;164m",
    "\\u001b[48;5;165m",
    "\\u001b[48;5;166m",
    "\\u001b[48;5;167m",
    "\\u001b[48;5;168m",
    "\\u001b[48;5;169m",
    "\\u001b[48;5;170m",
    "\\u001b[48;5;171m",
    "\\u001b[48;5;172m",
    "\\u001b[48;5;173m",
    "\\u001b[48;5;174m",
    "\\u001b[48;5;175m",
    "\\u001b[48;5;176m",
    "\\u001b[48;5;177m",
    "\\u001b[48;5;178m",
    "\\u001b[48;5;179m",
    "\\u001b[48;5;180m",
    "\\u001b[48;5;181m",
    "\\u001b[48;5;182m",
    "\\u001b[48;5;183m",
    "\\u001b[48;5;184m",
    "\\u001b[48;5;185m",
    "\\u001b[48;5;186m",
    "\\u001b[48;5;187m",
    "\\u001b[48;5;188m",
    "\\u001b[48;5;189m",
    "\\u001b[48;5;190m",
    "\\u001b[48;5;191m",
    "\\u001b[48;5;192m",
    "\\u001b[48;5;193m",
    "\\u001b[48;5;194m",
    "\\u001b[48;5;195m",
    "\\u001b[48;5;196m",
    "\\u001b[48;5;197m",
    "\\u001b[48;5;198m",
    "\\u001b[48;5;199m",
    "\\u001b[48;5;200m",
    "\\u001b[48;5;201m",
    "\\u001b[48;5;202m",
    "\\u001b[48;5;203m",
    "\\u001b[48;5;204m",
    "\\u001b[48;5;205m",
    "\\u001b[48;5;206m",
    "\\u001b[48;5;207m",
    "\\u001b[48;5;208m",
    "\\u001b[48;5;209m",
    "\\u001b[48;5;210m",
    "\\u001b[48;5;211m",
    "\\u001b[48;5;212m",
    "\\u001b[48;5;213m",
    "\\u001b[48;5;214m",
    "\\u001b[48;5;215m",
    "\\u001b[48;5;216m",
    "\\u001b[48;5;217m",
    "\\u001b[48;5;218m",
    "\\u001b[48;5;219m",
    "\\u001b[48;5;220m",
    "\\u001b[48;5;221m",
    "\\u001b[48;5;222m",
    "\\u001b[48;5;223m",
    "\\u001b[48;5;224m",
    "\\u001b[48;5;225m",
    "\\u001b[48;5;226m",
    "\\u001b[48;5;227m",
    "\\u001b[48;5;228m",
    "\\u001b[48;5;229m",
    "\\u001b[48;5;230m",
    "\\u001b[48;5;231m",
    "\\u001b[48;5;232m",
    "\\u001b[48;5;233m",
    "\\u001b[48;5;234m",
    "\\u001b[48;5;235m",
    "\\u001b[48;5;236m",
    "\\u001b[48;5;237m",
    "\\u001b[48;5;238m",
    "\\u001b[48;5;239m",
    "\\u001b[48;5;240m",
    "\\u001b[48;5;241m",
    "\\u001b[48;5;242m",
    "\\u001b[48;5;243m",
    "\\u001b[48;5;244m",
    "\\u001b[48;5;245m",
    "\\u001b[48;5;246m",
    "\\u001b[48;5;247m",
    "\\u001b[48;5;248m",
    "\\u001b[48;5;249m",
    "\\u001b[48;5;250m",
    "\\u001b[48;5;251m",
    "\\u001b[48;5;252m",
    "\\u001b[48;5;253m",
    "\\u001b[48;5;254m",
    "\\u001b[48;5;255m",
    "\\u001b[0m",
    "\\u001b[1m",
    "\\u001b[2m",
    "\\u001b[4m",
    "\\u001b[5m",
    "\\u001b[7m",
    "\\u001b[8m",
    "\\u001b[21m",
    "\\u001b[22m",
    "\\u001b[24m",
    "\\u001b[25m",
    "\\u001b[27m",
    "\\u001b[28m",
    "\\u001b",
    "B[m",
    "\\\"",
    "\"",
    "[;1m",
    "[;0m",
    "[;2m",
];

/// The characters of each word of a list.
pub open spec fn word_views(words: Seq<&'static str>) -> Seq<Seq<char>> {
    words.map_values(|word: &'static str| word@)
}

/// A text without the word `word`: read from the left, each place where the
/// word stands is left out, and the reading goes on behind it. The empty
/// word stands nowhere.
pub open spec fn without_word(text: Seq<char>, word: Seq<char>) -> Seq<char>
    decreases text.len(),
{
    if text.len() == 0 {
        text
    } else if word.len() > 0 && starts_with(text, word) {
        without_word(text.skip(word.len() as int), word)
    } else {
        seq![text[0]] + without_word(text.drop_first(), word)
    }
}

/// A text without the words of a list, taken out one after the other.
pub open spec fn without_words(text: Seq<char>, words: Seq<Seq<char>>) -> Seq<char>
    decreases words.len(),
{
    if words.len() == 0 {
        text
    } else {
        without_word(without_words(text, words.drop_last()), words.last())
    }
}

/// A text without the word `word`.
pub fn remove_word(text: &str, word: &str) -> (out: String)
    ensures
        out@ == without_word(text@, word@),
{
    let chars = chars_of(text);
    let letters = chars_of(word);
    let ghost whole = without_word(chars@, letters@);
    let mut out = String::new();
    let mut from: usize = 0;
    let mut at: usize = 0;
    assert(chars@.skip(0) =~= chars@);
    assert(out@ + chars@.subrange(0, 0) + whole =~= whole);
    while at < chars.len()
        invariant
            from <= at <= chars.len(),
            chars@ == text@,
            letters@ == word@,
            whole == without_word(chars@, letters@),
            out@ + chars@.subrange(from as int, at as int) + without_word(
                chars@.skip(at as int),
                letters@,
            ) == whole,
        decreases chars.len() - at,
    {
        let ghost rest = chars@.skip(at as int);
        let ghost kept = out@ + chars@.subrange(from as int, at as int);
        proof {
            assert(rest.len() > 0);
            assert(occurs_at(chars@, letters@, at as int) <==> starts_with(rest, letters@)) by {
                if at + letters@.len() <= chars@.len() {
                    assert(rest.subrange(0, letters@.len() as int) =~= chars@.subrange(
                        at as int,
                        at + letters@.len(),
                    ));
                }
            }
        }
        if letters.len() > 0 && matches_at(&chars, &letters, at) {
            out.append(text.substring_char(from, at));
            at += letters.len();
            from = at;
            proof {
                assert(rest.skip(letters@.len() as int) =~= chars@.skip(at as int));
                assert(out@ + chars@.subrange(from as int, at as int) =~= kept);
            }
        } else {
            proof {
                assert(rest.drop_first() =~= chars@.skip(at + 1));
                assert(kept + (seq![rest[0]] + without_word(rest.drop_first(), letters@)) =~= out@
                    + chars@.subrange(from as int, at + 1) + without_word(
                    chars@.skip(at + 1),
                    letters@,
                ));
            }
            at += 1;
        }
    }
    out.append(text.substring_char(from, at));
    assert(out@ =~= whole);
    out
}

/// A line without the sequences of [`ESCAPE_SEQUENCES`], taken out one after
/// the other.
pub fn filter_ansi(utf8_string: String) -> (out: String)
    ensures
        out@ == without_words(utf8_string@, word_views(ESCAPE_SEQUENCES@)),
{
    let ghost words = word_views(ESCAPE_SEQUENCES@);
    let ghost text = utf8_string@;
    let mut out = utf8_string;
    let mut i: usize = 0;
    assert(words.take(0) =~= Seq::<Seq<char>>::empty());
    while i < ESCAPE_SEQUENCES.len()
        invariant
            i <= ESCAPE_SEQUENCES@.len(),
            words == word_views(ESCAPE_SEQUENCES@),
            out@ == without_words(text, words.take(i as int)),
        decreases ESCAPE_SEQUENCES@.len() - i,
    {
        proof {
            let next = words.take(i + 1);
            assert(next.drop_last() =~= words.take(i as int));
            assert(next.last() == ESCAPE_SEQUENCES@[i as int]@);
        }
        out = remove_word(out.as_str(), ESCAPE_SEQUENCES[i]);
        i += 1;
    }
    assert(words.take(ESCAPE_SEQUENCES@.len() as int) =~= words);
    out
}

/// The text that a result leaves in the log file of its activity, for the
/// results that leave one.
pub open spec fn result_entry(result: ActivityResultView) -> Option<Seq<char>> {
    match result {
        ActivityResultView::BuildLogLine(text) => Some(text),
        ActivityResultView::UntrustedPath(text) => Some(text),
        ActivityResultView::CorruptedPath(text) => Some(text),
        ActivityResultView::SetPhase(text) => Some(text),
        _ => None,
    }
}

/// What a message leaves in the log files: the id of the activity whose
/// file it goes to, and the text. A start leaves its text, a stop the word
/// `done`, a result what [`result_entry`] says; a message without an
/// activity goes to the file of the id -1.
pub open spec fn file_entry(message: MessageView) -> Option<(i64, Seq<char>)> {
    match message {
        MessageView::Start { id, text, .. } => Some((id, text)),
        MessageView::Stop { id } => Some((id, "done"@)),
        MessageView::Result { id, result } => match result_entry(result) {
            Some(text) => Some((id, text)),
            None => None,
        },
        MessageView::Message { msg, .. } => Some((-1i64, msg)),
    }
}

/// The model of an entry that may be missing.
pub open spec fn entry_view(entry: Option<(i64, String)>) -> Option<(i64, Seq<char>)> {
    match entry {
        Some((id, text)) => Some((id, text@)),
        None => None,
    }
}

/// What a message leaves in the log files: the id of the activity whose
/// file it goes to, and the text.
pub fn log_file_entry(message: &JSONMessage) -> (out: Option<(i64, String)>)
    ensures
        entry_view(out) == file_entry(message@),
{
    match message {
        JSONMessage::Start(start) => Some((start.id, start.text.clone())),
        JSONMessage::Stop(stop) => Some((stop.id, "done".to_owned())),
        JSONMessage::Result(result) => match &result.result {
            ActivityResult::BuildLogLine(text) => Some((result.id, text.clone())),
            ActivityResult::UntrustedPath(text) => Some((result.id, text.clone())),
            ActivityResult::CorruptedPath(text) => Some((result.id, text.clone())),
            ActivityResult::SetPhase(text) => Some((result.id, text.clone())),
            _ => None,
        },
        JSONMessage::Message(message) => Some((-1, message.msg.clone())),
    }
}

} // verus!
