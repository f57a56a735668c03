pub mod data_pipe_message;
pub mod data_pipe_message_header;
pub mod data_pipe_message_type;
