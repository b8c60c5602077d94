//! Runtime core of an audio-plugin engine: bus layouts, a buffer pool whose
//! views alias host memory without copying, the routing of each callback onto
//! the host's busses, and the setup, activation and processing lifecycle.

pub mod audio_layout;
pub mod buffer;
pub mod editor;
pub mod param;
pub mod plugin;
pub mod pool;
pub mod routing;
pub mod state;
pub mod text;

pub use audio_layout::{AudioLayout, AudioPort, BusDirection, BusInfo};
pub use buffer::{BufferView, ChannelIter, ChannelSource, ProcessMode, SampleIter};
pub use editor::EditorHandle;
pub use param::{count_params, flag_text, locate_param, Bool, Unit};
pub use plugin::{Activate, Info, Process, Subcategory};
pub use pool::Buffers;
pub use routing::{route_buffers, ChannelCopy, HostBus};
pub use state::{ActiveStep, PluginState, ProcessStep};
pub use text::{decimal_string, strcpy, u16strcpy};
