pub mod behavioral;
pub mod creational;
pub mod decimal;
pub mod lookup;
pub mod structural;
