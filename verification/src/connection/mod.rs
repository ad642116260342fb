pub mod dbconection;
