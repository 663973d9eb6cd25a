pub mod path_utils;
