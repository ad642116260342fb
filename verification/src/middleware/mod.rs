pub mod authmiddleware;
pub mod db_conn_middleware;
pub mod user_auth_middleware;
